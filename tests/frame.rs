use spi_bridge::diagnostic::{error_line_of, push_decimal, DiagnosticWriter, DIAGNOSTIC_CAPACITY};
use spi_bridge::frame::{make_word, parse_frame, push_word, FrameError, Mode, Parsed};

fn request(frame: &[u8]) -> (Mode, Vec<u16>) {
    match parse_frame(frame) {
        Parsed::Request(req) => (req.mode, req.words),
        Parsed::Incomplete => panic!("incomplete"),
        Parsed::Invalid(e) => panic!("invalid: {:?}", e),
    }
}

fn invalid(frame: &[u8]) -> FrameError {
    match parse_frame(frame) {
        Parsed::Invalid(e) => e,
        _ => panic!("frame accepted"),
    }
}

#[test]
fn write_frame_gives_big_endian_words() {
    assert_eq!(request(b"w\x01\x02"), (Mode::Write, vec![0x0102]));
}

#[test]
fn write_read_frame_gives_words_in_host_order() {
    assert_eq!(
        request(b"r\x80\x00\x12\x34\xff\xfe"),
        (Mode::WriteRead, vec![0x8000, 0x1234, 0xfffe])
    );
}

#[test]
fn fewer_than_two_bytes_is_no_frame_yet() {
    assert!(matches!(parse_frame(b""), Parsed::Incomplete));
    assert!(matches!(parse_frame(b"w"), Parsed::Incomplete));
    assert!(matches!(parse_frame(b"x"), Parsed::Incomplete));
}

#[test]
fn unknown_marker_is_a_mode_error() {
    assert_eq!(invalid(b"x\x01\x02"), FrameError::InvalidMode { mode: b'x' });
}

#[test]
fn marker_is_checked_before_length() {
    assert_eq!(invalid(b"x\x01"), FrameError::InvalidMode { mode: b'x' });
}

#[test]
fn even_length_is_a_count_error() {
    assert_eq!(invalid(b"w\x01"), FrameError::InvalidCount { count: 2 });
    assert_eq!(invalid(b"r\x01\x02\x03"), FrameError::InvalidCount { count: 4 });
}

#[test]
fn every_even_length_of_two_or_more_is_refused() {
    for len in (2..=256usize).step_by(2) {
        let mut frame = vec![0u8; len];
        frame[0] = b'r';
        assert_eq!(invalid(&frame), FrameError::InvalidCount { count: len });
    }
}

#[test]
fn frame_error_texts() {
    assert_eq!(
        FrameError::InvalidMode { mode: 120 }.text(),
        b"mode invalid. mode must be b'w'(119) or b'r'(114): mode=120".to_vec()
    );
    assert_eq!(
        FrameError::InvalidCount { count: 4 }.text(),
        b"count is invalid. count must be odd: count=4".to_vec()
    );
}

#[test]
fn frame_error_diagnostic_lines() {
    assert_eq!(
        FrameError::InvalidCount { count: 256 }.diagnostic(),
        b"Ecount is invalid. count must be odd: count=256\r\n".to_vec()
    );
}

#[test]
fn decimal_digits() {
    let mut out = Vec::new();
    push_decimal(&mut out, 0);
    out.push(b' ');
    push_decimal(&mut out, 7);
    out.push(b' ');
    push_decimal(&mut out, 255);
    out.push(b' ');
    push_decimal(&mut out, 1000);
    assert_eq!(out, b"0 7 255 1000".to_vec());
}

#[test]
fn words_and_bytes() {
    assert_eq!(make_word(0x12, 0x34), 0x1234);
    assert_eq!(make_word(0xff, 0x00), 0xff00);
    let mut out = vec![b'O'];
    push_word(&mut out, 0xabcd);
    assert_eq!(out, vec![b'O', 0xab, 0xcd]);
}

#[test]
fn writer_stops_at_its_capacity() {
    let mut w = DiagnosticWriter::new();
    assert!(w.write_bytes(&[b'a'; 100]));
    assert!(!w.write_bytes(&[b'b'; 100]));
    let held = w.contents();
    assert_eq!(held.len(), DIAGNOSTIC_CAPACITY);
    assert_eq!(&held[..100], &[b'a'; 100][..]);
    assert_eq!(&held[100..], &[b'b'; 28][..]);
    assert!(!w.write_bytes(b"c"));
    assert_eq!(w.contents(), held);
}

#[test]
fn writer_accepts_exactly_its_capacity() {
    let mut w = DiagnosticWriter::new();
    assert!(w.write_bytes(&[b'z'; 128]));
    assert_eq!(w.contents().len(), 128);
}

#[test]
fn long_diagnostic_is_cut_and_still_terminated() {
    let line = error_line_of(&[b'x'; 300]);
    assert_eq!(line.len(), DIAGNOSTIC_CAPACITY + 2);
    assert_eq!(line[0], b'E');
    assert_eq!(&line[1..128], &[b'x'; 127][..]);
    assert_eq!(&line[128..], b"\r\n");
}
