[package]
name = "usb_blinky"
version = "0.1.0"
edition = "2021"
publish = false

[dependencies]
cortex-m = "*"
cortex-m-rt = "*"
embedded-hal = "*"
rp2040-boot2 = "*"
rp2040-hal = { version = "*", features = ["rt"] }
usb-device = "*"
usbd-serial = "*"
