use kessler_payload::serial::{
    is_ascii_number, maybe_read_num, wait_for_any_packet, wait_for_character, wait_for_string, NumberReader,
    NumberState, SerialWriter, StringWaiter, TextColours,
};

#[test]
fn reads_numbers_ended_by_carriage_return() {
    assert_eq!(maybe_read_num(b"1234\r"), Some(Some(1234)));
    assert_eq!(maybe_read_num(b"-56\r"), Some(Some(-56)));
    assert_eq!(maybe_read_num(b"0\r"), Some(Some(0)));
    assert_eq!(maybe_read_num(b"2147483647\r"), Some(Some(i32::MAX)));
    // Bytes after the carriage return are not read.
    assert_eq!(maybe_read_num(b"7\r8\r"), Some(Some(7)));
}

#[test]
fn invalid_or_unfinished_numbers() {
    assert_eq!(maybe_read_num(b"\r"), Some(None));
    assert_eq!(maybe_read_num(b"12a\r"), Some(None));
    assert_eq!(maybe_read_num(b"--1\r"), Some(None));
    // A sign with no digit, and a magnitude beyond i32::MAX, are invalid.
    assert_eq!(maybe_read_num(b"-\r"), Some(None));
    assert_eq!(maybe_read_num(b"3000000000\r"), Some(None));
    assert_eq!(maybe_read_num(b"2147483648"), Some(None));
    assert_eq!(maybe_read_num(b"-2147483648\r"), Some(None));
    assert_eq!(maybe_read_num(b"123"), None);
    assert_eq!(maybe_read_num(b""), None);
}

#[test]
fn number_reader_byte_by_byte() {
    let mut r = NumberReader::new();
    assert_eq!(r.result(), None);
    r.feed(b'-');
    assert_eq!(r.state, NumberState::Signed);
    for b in b"42" {
        r.feed(*b);
    }
    assert_eq!(r.state, NumberState::Reading { negative: true, value: 42 });
    r.feed(b'\r');
    assert_eq!(r.result(), Some(Some(-42)));
    r.feed(b'9');
    assert_eq!(r.result(), Some(Some(-42)));
}

#[test]
fn waiting_for_packets_characters_and_strings() {
    assert_eq!(wait_for_any_packet(&vec![None, None, Some(b'x'), Some(b'y')]), Some((b'x', 3)));
    assert_eq!(wait_for_any_packet(&vec![None, None]), None);
    assert_eq!(wait_for_character(b'\r', b"ab\rc"), Some(3));
    assert_eq!(wait_for_character(b'z', b"abc"), None);
    assert_eq!(wait_for_string(b"OK", b"xxOyK"), Some(5));
    assert_eq!(wait_for_string(b"OK", b"KO"), None);
    assert_eq!(wait_for_string(b"", b"abc"), Some(0));
}

#[test]
fn string_waiter_accepts_its_own_string() {
    let mut w = StringWaiter::new(b"START");
    assert!(!w.is_done());
    for b in b"START" {
        w.feed(*b);
    }
    assert!(w.is_done());
}

#[test]
fn ascii_digits_and_colours() {
    assert!(is_ascii_number(b'0'));
    assert!(is_ascii_number(b'9'));
    assert!(!is_ascii_number(b'/'));
    assert!(!is_ascii_number(b':'));
    assert_eq!(TextColours::Red.ansi_code(), 31);
    assert_eq!(TextColours::Green.ansi_code(), 32);
    assert_eq!(TextColours::Yellow.ansi_code(), 33);
    let w = SerialWriter::new(5u8);
    assert_eq!(w.return_pin(), 5u8);
}
