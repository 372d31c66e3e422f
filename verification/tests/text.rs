use usb_blinky::text::{delay_note_line, status_line};

#[test]
fn status_line_zero() {
    assert_eq!(status_line(0), b"starting loop number 0\r\n".to_vec());
}

#[test]
fn status_line_multi_digit() {
    assert_eq!(status_line(12345), b"starting loop number 12345\r\n".to_vec());
}

#[test]
fn status_line_largest_counter() {
    assert_eq!(
        status_line(u32::MAX),
        b"starting loop number 4294967295\r\n".to_vec()
    );
}

#[test]
fn status_line_round_decimal() {
    assert_eq!(status_line(100), b"starting loop number 100\r\n".to_vec());
}

#[test]
fn delay_note_line_default_delay() {
    assert_eq!(delay_note_line(500), b"  current delay is 500\r\n".to_vec());
}

#[test]
fn delay_note_line_one_millisecond() {
    assert_eq!(delay_note_line(1), b"  current delay is 1\r\n".to_vec());
}
