use std::io::Cursor;

use inkwell::local_ipc::{
    handshake_message, parse_handshake, validate_name, AuthenticatedStream, Endpoint,
    HandshakeError, IpcError, IpcRequest, SessionKey, HANDSHAKE_MAGIC, HEADER_BYTES,
    MAX_IPC_MESSAGE_BYTES, TAG_BYTES,
};

const KEY: [u8; 32] = [0x5a; 32];

fn encode(endpoint: Endpoint, payload: &[u8]) -> Vec<u8> {
    let mut wire = Vec::new();
    AuthenticatedStream::new(&mut wire, SessionKey::from_bytes(KEY), endpoint)
        .send(payload)
        .expect("frame should encode");
    wire
}

fn decode(endpoint: Endpoint, key: [u8; 32], frame: Vec<u8>) -> Result<Option<Vec<u8>>, IpcError> {
    AuthenticatedStream::new(Cursor::new(frame), SessionKey::from_bytes(key), endpoint).receive()
}

#[test]
fn endpoints_exchange_multiple_authenticated_frames() {
    let mut wire = Vec::new();
    let mut host = AuthenticatedStream::new(&mut wire, SessionKey::from_bytes(KEY), Endpoint::Host);
    host.send(b"request").expect("first frame should write");
    host.send(b"disconnect").expect("second frame should write");
    drop(host);

    let mut desktop = AuthenticatedStream::new(
        Cursor::new(wire),
        SessionKey::from_bytes(KEY),
        Endpoint::Desktop,
    );
    assert_eq!(
        desktop.receive().expect("frame should read"),
        Some(b"request".to_vec())
    );
    assert_eq!(
        desktop.receive().expect("frame should read"),
        Some(b"disconnect".to_vec())
    );
    assert_eq!(desktop.receive().expect("EOF should be clean"), None);
}

#[test]
fn rejects_tampering_wrong_keys_and_wrong_directions() {
    let frame = encode(Endpoint::Host, b"request");

    let mut tampered = frame.clone();
    tampered[HEADER_BYTES + 4] ^= 1;
    assert!(matches!(
        decode(Endpoint::Desktop, KEY, tampered),
        Err(IpcError::AuthenticationFailed)
    ));

    let mut wrong_key = KEY;
    wrong_key[0] ^= 1;
    assert!(matches!(
        decode(Endpoint::Desktop, wrong_key, frame.clone()),
        Err(IpcError::AuthenticationFailed)
    ));
    assert!(matches!(
        decode(Endpoint::Host, KEY, frame),
        Err(IpcError::AuthenticationFailed)
    ));
}

#[test]
fn rejects_replayed_and_out_of_order_frames() {
    let first = encode(Endpoint::Host, b"request");
    let mut duplicated = first.clone();
    duplicated.extend_from_slice(&first);
    let mut desktop = AuthenticatedStream::new(
        Cursor::new(duplicated),
        SessionKey::from_bytes(KEY),
        Endpoint::Desktop,
    );
    assert!(desktop
        .receive()
        .expect("first frame should pass")
        .is_some());
    assert!(matches!(
        desktop.receive(),
        Err(IpcError::UnexpectedSequence)
    ));
}

#[test]
fn distinguishes_clean_eof_truncation_and_oversize() {
    let mut empty = AuthenticatedStream::new(
        Cursor::new(Vec::new()),
        SessionKey::from_bytes(KEY),
        Endpoint::Desktop,
    );
    assert_eq!(empty.receive().expect("EOF should be clean"), None);

    let mut truncated = AuthenticatedStream::new(
        Cursor::new(vec![1, 0]),
        SessionKey::from_bytes(KEY),
        Endpoint::Desktop,
    );
    assert!(matches!(truncated.receive(), Err(IpcError::Truncated)));

    let too_large = u32::try_from(MAX_IPC_MESSAGE_BYTES + HEADER_BYTES + TAG_BYTES + 1)
        .expect("configured frame limit fits u32")
        .to_le_bytes();
    let mut oversized = AuthenticatedStream::new(
        Cursor::new(too_large),
        SessionKey::from_bytes(KEY),
        Endpoint::Desktop,
    );
    assert!(matches!(oversized.receive(), Err(IpcError::TooLarge)));
}

#[test]
fn debug_output_never_exposes_authentication_material() {
    let key = SessionKey::from_bytes(KEY);
    let output = key.debug_text();
    assert_eq!(output, "SessionKey([REDACTED])");
    assert!(!output.contains("5a"));
}

#[test]
fn frames_have_a_version_a_sequence_and_a_tag() {
    let frame = encode(Endpoint::Host, b"abc");
    let body_len = u32::from_le_bytes([frame[0], frame[1], frame[2], frame[3]]) as usize;
    assert_eq!(body_len, HEADER_BYTES + 3 + TAG_BYTES);
    assert_eq!(frame.len(), 4 + body_len);
    assert_eq!(frame[4], 1);
    assert_eq!(&frame[5..13], &0_u64.to_le_bytes());
    assert_eq!(&frame[13..16], b"abc");
}

#[test]
fn the_second_frame_carries_the_next_sequence_number() {
    let mut wire = Vec::new();
    let mut host = AuthenticatedStream::new(&mut wire, SessionKey::from_bytes(KEY), Endpoint::Host);
    host.send(b"a").unwrap();
    host.send(b"b").unwrap();
    drop(host);
    let first_len = 4 + HEADER_BYTES + 1 + TAG_BYTES;
    assert_eq!(&wire[first_len + 5..first_len + 13], &1_u64.to_le_bytes());
}

#[test]
fn unknown_frame_versions_are_refused() {
    let mut frame = encode(Endpoint::Host, b"request");
    frame[4] = 2;
    assert!(matches!(
        decode(Endpoint::Desktop, KEY, frame),
        Err(IpcError::UnsupportedVersion)
    ));
}

#[test]
fn frames_too_short_for_a_header_and_tag_are_truncated() {
    let mut frame = 5_u32.to_le_bytes().to_vec();
    frame.extend_from_slice(&[1, 0, 0, 0, 0]);
    assert!(matches!(
        decode(Endpoint::Desktop, KEY, frame),
        Err(IpcError::Truncated)
    ));
}

#[test]
fn the_handshake_carries_the_key_after_the_magic() {
    let key = SessionKey::from_bytes(KEY);
    let message = handshake_message(&key);
    assert_eq!(&message[..8], &HANDSHAKE_MAGIC);
    assert_eq!(&message[8..], &KEY);
    let parsed = parse_handshake(&message).expect("own handshake should parse");
    let mut wire = Vec::new();
    AuthenticatedStream::new(&mut wire, parsed, Endpoint::Desktop)
        .send(b"same key")
        .unwrap();
    assert_eq!(
        decode(Endpoint::Host, KEY, wire).unwrap(),
        Some(b"same key".to_vec())
    );

    let mut wrong = message;
    wrong[0] ^= 1;
    assert!(matches!(
        parse_handshake(&wrong),
        Err(HandshakeError::InvalidHandshake)
    ));
}

#[test]
fn endpoint_names_use_a_restricted_alphabet() {
    assert!(validate_name("com.inkwell.desktop-dev_1").is_ok());
    assert!(validate_name("").is_err());
    assert!(validate_name("inkwell/desktop").is_err());
    assert!(validate_name("inkwell desktop").is_err());
}

#[test]
fn generated_keys_are_thirty_two_random_bytes() {
    let first = SessionKey::generate().expect("randomness should be available");
    let second = SessionKey::generate().expect("randomness should be available");
    let a = handshake_message(&first);
    let b = handshake_message(&second);
    assert_ne!(&a[8..], &b[8..]);
}

#[test]
fn clearing_a_request_empties_every_field() {
    let mut request = IpcRequest {
        request_id: "123e4567-e89b-42d3-a456-426614174000".to_owned(),
        website_origin: "https://example.com".to_owned(),
        document_name: "contract.pdf".to_owned(),
        preview_pdf: vec![1; 16],
        byte_range_content: vec![2; 16],
    };
    request.clear();
    assert!(request.request_id.is_empty());
    assert!(request.website_origin.is_empty());
    assert!(request.document_name.is_empty());
    assert!(request.preview_pdf.is_empty());
    assert!(request.byte_range_content.is_empty());
}

#[test]
fn split_halves_keep_the_key_the_side_and_the_sequences() {
    let mut wire = Vec::new();
    let mut host = AuthenticatedStream::new(&mut wire, SessionKey::from_bytes(KEY), Endpoint::Host);
    host.send(b"request").unwrap();
    drop(host);

    let desktop = AuthenticatedStream::new(
        (Cursor::new(wire), Vec::new()),
        SessionKey::from_bytes(KEY),
        Endpoint::Desktop,
    );
    let (mut receiver, mut sender) = desktop.split(|(read, write)| (read, write));
    assert_eq!(receiver.receive().unwrap(), Some(b"request".to_vec()));
    sender.send(b"terminal").unwrap();
    let reply = sender.into_inner();
    assert_eq!(
        decode(Endpoint::Host, KEY, reply).unwrap(),
        Some(b"terminal".to_vec())
    );
}

#[test]
fn into_inner_returns_the_underlying_stream() {
    let stream = AuthenticatedStream::new(
        vec![1_u8, 2, 3],
        SessionKey::from_bytes(KEY),
        Endpoint::Host,
    );
    assert_eq!(stream.into_inner(), vec![1, 2, 3]);
}

#[test]
fn announced_frame_lengths_are_judged_before_reading() {
    assert!(matches!(
        inkwell::local_ipc::payload_length_verdict(HEADER_BYTES + TAG_BYTES - 1),
        Err(IpcError::Truncated)
    ));
    assert_eq!(inkwell::local_ipc::payload_length_verdict(HEADER_BYTES + TAG_BYTES).unwrap(), 0);
    assert_eq!(
        inkwell::local_ipc::payload_length_verdict(HEADER_BYTES + TAG_BYTES + MAX_IPC_MESSAGE_BYTES).unwrap(),
        MAX_IPC_MESSAGE_BYTES
    );
    assert!(matches!(
        inkwell::local_ipc::payload_length_verdict(HEADER_BYTES + TAG_BYTES + MAX_IPC_MESSAGE_BYTES + 1),
        Err(IpcError::TooLarge)
    ));
}

#[test]
fn sent_frames_are_the_sealed_bytes_after_their_length() {
    let mut wire = Vec::new();
    let mut host = AuthenticatedStream::new(&mut wire, SessionKey::from_bytes(KEY), Endpoint::Host);
    let sealed = host.seal(b"payload");
    host.send(b"payload").unwrap();
    drop(host);
    assert_eq!(&wire[..4], &(sealed.len() as u32).to_le_bytes());
    assert_eq!(&wire[4..], sealed.as_slice());
}

#[test]
fn refused_sends_write_nothing() {
    let mut wire = Vec::new();
    let mut host = AuthenticatedStream::new(&mut wire, SessionKey::from_bytes(KEY), Endpoint::Host);
    let oversized = vec![0_u8; MAX_IPC_MESSAGE_BYTES + 1];
    assert!(matches!(host.send(&oversized), Err(IpcError::TooLarge)));
    drop(host);
    assert!(wire.is_empty());
}
