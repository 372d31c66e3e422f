//! Verified core of a small USB-serial blinker firmware.
//!
//! The hardware-facing glue (clock bringup, GPIO, the USB controller) lives
//! outside this library; everything that decides or computes is here:
//! the text emitted on the serial link, the schedule the blink loop follows,
//! the buffering and enumeration discipline of the serial transport, the
//! lazily-installed global transport slot, the startup sequencing rules and
//! the fault-reporting policy.

pub mod blink;
pub mod startup;
pub mod text;
pub mod transport;
