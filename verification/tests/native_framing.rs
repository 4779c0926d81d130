use std::io::Cursor;

use inkwell::native_framing::{
    frame_prefix, read_frame, write_frame, FrameError, MAX_REQUEST_FRAME_BYTES,
    MAX_RESPONSE_FRAME_BYTES,
};

#[test]
fn round_trips_a_browser_compatible_frame() {
    let mut encoded = Vec::new();
    write_frame(&mut encoded, br#"{"version":1}"#, 100).expect("frame should write");

    let decoded = read_frame(&mut Cursor::new(encoded), 100)
        .expect("frame should read")
        .expect("frame should exist");

    assert_eq!(decoded, br#"{"version":1}"#);
}

#[test]
fn reads_a_literal_little_endian_chrome_frame_on_supported_targets() {
    let input = [3, 0, 0, 0, b'a', b'b', b'c'];
    assert_eq!(
        read_frame(&mut Cursor::new(input), 3).expect("literal frame should read"),
        Some(b"abc".to_vec())
    );
}

#[test]
fn distinguishes_clean_eof_from_truncation() {
    assert!(read_frame(&mut Cursor::new([]), 10)
        .expect("clean EOF")
        .is_none());
    assert!(matches!(
        read_frame(&mut Cursor::new([1, 0]), 10),
        Err(FrameError::TruncatedPrefix)
    ));

    let mut truncated_body = 3_u32.to_ne_bytes().to_vec();
    truncated_body.extend_from_slice(b"ab");
    assert!(matches!(
        read_frame(&mut Cursor::new(truncated_body), 10),
        Err(FrameError::TruncatedBody)
    ));
}

#[test]
fn rejects_large_frames_before_body_allocation() {
    let input = 11_u32.to_ne_bytes();
    assert!(matches!(
        read_frame(&mut Cursor::new(input), 10),
        Err(FrameError::TooLarge)
    ));
    assert!(matches!(
        write_frame(&mut Vec::new(), b"123", 2),
        Err(FrameError::TooLarge)
    ));
}

#[test]
fn accepts_empty_message_bodies() {
    let mut encoded = Vec::new();
    write_frame(&mut encoded, b"", 0).expect("empty frame should write");
    assert_eq!(
        read_frame(&mut Cursor::new(encoded), 0).expect("empty frame should read"),
        Some(Vec::new())
    );
}

#[test]
fn prefix_is_the_length_in_machine_byte_order() {
    assert_eq!(frame_prefix(3), 3_u32.to_ne_bytes());
    assert_eq!(frame_prefix(0x0102_0304), 0x0102_0304_u32.to_ne_bytes());
}

#[test]
fn written_frames_are_prefix_then_body_and_nothing_for_oversize() {
    let mut encoded = Vec::new();
    write_frame(&mut encoded, b"abc", 3).expect("frame at the limit should write");
    let mut expected = 3_u32.to_ne_bytes().to_vec();
    expected.extend_from_slice(b"abc");
    assert_eq!(encoded, expected);

    let mut untouched = Vec::new();
    assert!(matches!(
        write_frame(&mut untouched, b"abcd", 3),
        Err(FrameError::TooLarge)
    ));
    assert!(untouched.is_empty());
}

#[test]
fn reads_consecutive_frames_then_a_clean_end() {
    let mut encoded = Vec::new();
    write_frame(&mut encoded, b"one", 10).unwrap();
    write_frame(&mut encoded, b"two!", 10).unwrap();
    let mut input = Cursor::new(encoded);
    assert_eq!(read_frame(&mut input, 10).unwrap(), Some(b"one".to_vec()));
    assert_eq!(read_frame(&mut input, 10).unwrap(), Some(b"two!".to_vec()));
    assert_eq!(read_frame(&mut input, 10).unwrap(), None);
}

#[test]
fn frame_limits_match_the_browser() {
    assert_eq!(MAX_REQUEST_FRAME_BYTES, 140 * 1024 * 1024);
    assert_eq!(MAX_RESPONSE_FRAME_BYTES, 1024 * 1024);
}

#[test]
fn announced_lengths_are_checked_against_the_limit_inclusively() {
    assert_eq!(inkwell::native_framing::frame_length_verdict(10, 10).unwrap(), 10);
    assert_eq!(inkwell::native_framing::frame_length_verdict(0, 0).unwrap(), 0);
    assert!(matches!(inkwell::native_framing::frame_length_verdict(11, 10), Err(FrameError::TooLarge)));
}

#[test]
fn read_steps_mean_clean_end_truncation_progress_or_failure() {
    let prefix = inkwell::native_framing::prefix_progress;
    let body = inkwell::native_framing::body_progress;
    assert!(matches!(prefix(inkwell::byte_io::FillStep::Filled(2)), Ok(Some(2))));
    assert!(matches!(prefix(inkwell::byte_io::FillStep::EndBeforeField), Ok(None)));
    assert!(matches!(prefix(inkwell::byte_io::FillStep::EndInsideField), Err(FrameError::TruncatedPrefix)));
    let failure = std::io::Error::new(std::io::ErrorKind::Other, "gone");
    assert!(matches!(prefix(inkwell::byte_io::FillStep::Failed(failure)), Err(FrameError::Io(_))));
    assert!(matches!(body(inkwell::byte_io::FillStep::Filled(7)), Ok(7)));
    assert!(matches!(body(inkwell::byte_io::FillStep::EndBeforeField), Err(FrameError::TruncatedBody)));
    assert!(matches!(body(inkwell::byte_io::FillStep::EndInsideField), Err(FrameError::TruncatedBody)));
}
