use base64::engine::general_purpose::STANDARD;
use base64::Engine as _;
use sha2::{Digest, Sha256};

use inkwell::protocol::{BinaryPayload, SignRequest, VERSION};
use inkwell::protocol::ErrorCode;
use inkwell::validation::{
    constant_time_eq, decode_bounded, hex_nibble, is_lowercase_sha256, is_valid_request_id,
    validate_request, ValidationError, MAX_DOCUMENT_NAME_BYTES, MAX_ORIGIN_BYTES,
};

const REQUEST_ID: &str = "123e4567-e89b-42d3-a456-426614174000";

fn valid_request() -> SignRequest {
    SignRequest {
        version: VERSION,
        message_type: "sign_request".to_owned(),
        request_id: REQUEST_ID.to_owned(),
        website_origin: "https://example.com".to_owned(),
        document_name: "document.pdf".to_owned(),
        preview_pdf: payload(b"%PDF-1.7\n"),
        byte_range_content: payload(b"byte range"),
    }
}

fn payload(data: &[u8]) -> BinaryPayload {
    BinaryPayload {
        encoding: "base64".to_owned(),
        data: STANDARD.encode(data),
        sha256: format!("{:x}", Sha256::digest(data)),
    }
}

#[test]
fn validates_and_decodes_a_complete_request() {
    let request = valid_request();

    let validated = validate_request(request).expect("request should be valid");

    assert_eq!(validated.request_id(), REQUEST_ID);
    assert_eq!(validated.website_origin(), "https://example.com");
    assert_eq!(validated.document_name(), "document.pdf");
    assert_eq!(validated.preview_pdf(), b"%PDF-1.7\n");
    assert_eq!(validated.byte_range_content(), b"byte range");
}

#[test]
fn distinguishes_unsupported_versions() {
    let mut request = valid_request();
    request.version = 2;

    assert_eq!(
        validate_request(request).err(),
        Some(ValidationError::UnsupportedVersion)
    );
}

#[test]
fn validates_type_and_uuid() {
    let mut wrong_type = valid_request();
    wrong_type.message_type = "other".to_owned();
    let mut wrong_id = valid_request();
    wrong_id.request_id = "not-a-uuid".to_owned();
    let mut noncanonical_id = valid_request();
    noncanonical_id.request_id = "123e4567e89b42d3a456426614174000".to_owned();
    let mut nil_id = valid_request();
    nil_id.request_id = "00000000-0000-0000-0000-000000000000".to_owned();

    assert_eq!(
        validate_request(wrong_type).err(),
        Some(ValidationError::InvalidMessage)
    );
    assert_eq!(
        validate_request(wrong_id).err(),
        Some(ValidationError::InvalidMessage)
    );
    assert_eq!(
        validate_request(noncanonical_id).err(),
        Some(ValidationError::InvalidMessage)
    );
    assert_eq!(
        validate_request(nil_id).err(),
        Some(ValidationError::InvalidMessage)
    );
}

#[test]
fn accepts_only_serialized_http_or_https_origins() {
    for invalid in [
        "file:///tmp/file",
        "https://user@example.com",
        "https://example.com/path",
        "https://example.com/?query",
        "https://example.com/#fragment",
        "https://example.com/",
    ] {
        let mut request = valid_request();
        request.website_origin = invalid.to_owned();
        assert_eq!(
            validate_request(request).err(),
            Some(ValidationError::InvalidMessage),
            "origin should fail: {invalid}"
        );
    }
}

#[test]
fn applies_text_limits_in_utf8_bytes() {
    let mut valid_origin = valid_request();
    valid_origin.website_origin = format!("https://{}.com", "a".repeat(2_036));
    assert_eq!(valid_origin.website_origin.len(), MAX_ORIGIN_BYTES);

    let mut long_origin = valid_request();
    long_origin.website_origin = format!("https://{}.com", "a".repeat(2_037));
    let mut valid_name = valid_request();
    valid_name.document_name = "a".repeat(MAX_DOCUMENT_NAME_BYTES);
    let mut long_name = valid_request();
    long_name.document_name = "é".repeat(128);

    assert!(validate_request(valid_origin).is_ok());
    assert!(validate_request(valid_name).is_ok());
    assert_eq!(
        validate_request(long_origin).err(),
        Some(ValidationError::InvalidMessage)
    );
    assert_eq!(
        validate_request(long_name).err(),
        Some(ValidationError::InvalidMessage)
    );
}

#[test]
fn rejects_noncanonical_or_oversized_base64_before_use() {
    assert_eq!(
        decode_bounded("YQ", 1).err(),
        Some(ValidationError::InvalidMessage)
    );
    assert_eq!(
        decode_bounded("YWI=", 1).err(),
        Some(ValidationError::RequestTooLarge)
    );
    assert_eq!(
        decode_bounded("__8=", 2).err(),
        Some(ValidationError::InvalidMessage)
    );
    assert_eq!(decode_bounded("YQ==", 1).expect("valid Base64"), b"a");
}

#[test]
fn maps_preview_and_byte_range_integrity_failures_separately() {
    let mut preview = valid_request();
    preview.preview_pdf.sha256 = "0".repeat(64);
    let mut byte_range = valid_request();
    byte_range.byte_range_content.sha256 = "A".repeat(64);

    assert_eq!(
        validate_request(preview).err(),
        Some(ValidationError::PdfInvalid)
    );
    assert_eq!(
        validate_request(byte_range).err(),
        Some(ValidationError::ByteRangeContentInvalid)
    );
}

#[test]
fn maps_payload_decoding_failures_separately() {
    let mut preview = valid_request();
    preview.preview_pdf.data = "not base64".to_owned();
    let mut byte_range = valid_request();
    byte_range.byte_range_content.data = "not base64".to_owned();

    assert_eq!(
        validate_request(preview).err(),
        Some(ValidationError::PdfInvalid)
    );
    assert_eq!(
        validate_request(byte_range).err(),
        Some(ValidationError::ByteRangeContentInvalid)
    );
}

#[test]
fn rejects_document_names_that_are_not_display_text() {
    for invalid_name in ["", "   ", "line\nbreak.pdf", "nul\0name.pdf"] {
        let mut request = valid_request();
        request.document_name = invalid_name.to_owned();
        assert_eq!(
            validate_request(request).err(),
            Some(ValidationError::InvalidMessage)
        );
    }
}

#[test]
fn requires_a_pdf_header_at_byte_zero() {
    for invalid_pdf in [b"PDF-1.7".as_slice(), b" %PDF-1.7", b"%PDF-2.1"] {
        let mut request = valid_request();
        request.preview_pdf = payload(invalid_pdf);
        assert_eq!(
            validate_request(request).err(),
            Some(ValidationError::PdfInvalid)
        );
    }
}

#[test]
fn request_identifiers_are_canonical_non_nil_uuids() {
    assert!(is_valid_request_id(REQUEST_ID));
    assert!(!is_valid_request_id("123E4567-E89B-42D3-A456-426614174000"));
    assert!(!is_valid_request_id("123e4567e89b42d3a456426614174000"));
    assert!(!is_valid_request_id("00000000-0000-0000-0000-000000000000"));
    assert!(!is_valid_request_id("not-a-uuid"));
    assert!(!is_valid_request_id(""));
}

#[test]
fn digests_compare_against_their_hex_text() {
    let digest = Sha256::digest(b"abc");
    let hex = format!("{:x}", digest);
    assert!(is_lowercase_sha256(&hex));
    assert!(constant_time_eq(digest.as_slice(), hex.as_bytes()));
    let mut other = hex.clone().into_bytes();
    other[63] = if other[63] == b'0' { b'1' } else { b'0' };
    assert!(!constant_time_eq(digest.as_slice(), &other));
    assert!(!is_lowercase_sha256(&hex.to_uppercase()));
    assert!(!is_lowercase_sha256(&hex[..63]));
    assert_eq!(hex_nibble(b'0'), 0);
    assert_eq!(hex_nibble(b'9'), 9);
    assert_eq!(hex_nibble(b'a'), 10);
    assert_eq!(hex_nibble(b'f'), 15);
    assert_eq!(hex_nibble(b'g'), 0);
    assert_eq!(hex_nibble(b'A'), 0);
}

#[test]
fn every_validation_error_has_its_wire_code() {
    let cases = [
        (ValidationError::UnsupportedVersion, ErrorCode::UnsupportedVersion),
        (ValidationError::InvalidMessage, ErrorCode::InvalidMessage),
        (ValidationError::RequestTooLarge, ErrorCode::RequestTooLarge),
        (ValidationError::PdfInvalid, ErrorCode::PdfInvalid),
        (
            ValidationError::ByteRangeContentInvalid,
            ErrorCode::ByterangeContentInvalid,
        ),
    ];
    for (error, code) in cases {
        assert_eq!(error.error_code(), code);
    }
}

#[test]
fn a_validated_request_gives_up_its_fields() {
    let parts = validate_request(valid_request())
        .expect("request should be valid")
        .into_parts();
    assert_eq!(parts.request_id, REQUEST_ID);
    assert_eq!(parts.website_origin, "https://example.com");
    assert_eq!(parts.document_name, "document.pdf");
    assert_eq!(parts.preview_pdf, b"%PDF-1.7\n");
    assert_eq!(parts.byte_range_content, b"byte range");
}

#[test]
fn decoding_accepts_limits_up_to_the_encodable_bound() {
    let max = usize::MAX / 4 * 3;
    assert_eq!(decode_bounded("YQ==", max).expect("valid Base64"), b"a");
}
