//! Bounded request decoding and validation.
//!
//! Validation covers the envelope fields, text lengths, Base64 decoding,
//! transport hashes and the PDF header. It completes before a request is shown.

use vstd::prelude::*;
use vstd::utf8::encode_utf8;

use crate::protocol::{BinaryPayload, ErrorCode, SignRequest, VERSION};
use crate::text::{
    contains_control, has_control, hex_pairs_match, hex_value, is_blank, is_lower_hex_byte,
    is_lowercase_sha256_text, str_eq, trims_to_empty, utf8_len,
};

verus! {

/// Largest decoded size of each binary field.
pub const MAX_BINARY_BYTES: usize = 50 * 1024 * 1024;

/// Largest website origin, in UTF-8 bytes.
pub const MAX_ORIGIN_BYTES: usize = 2_048;

/// Largest document name, in UTF-8 bytes.
pub const MAX_DOCUMENT_NAME_BYTES: usize = 255;

// ---------------------------------------------------------------------------
// Request identifiers
// ---------------------------------------------------------------------------

/// Sixteen to the power `n`.
pub open spec fn pow16(n: nat) -> int
    decreases n,
{
    if n == 0 {
        1
    } else {
        16 * pow16((n - 1) as nat)
    }
}

/// The lowercase hexadecimal digit for `n` in `0..16`.
pub open spec fn hex_digit_char(n: int) -> char {
    if n == 0 {
        '0'
    } else if n == 1 {
        '1'
    } else if n == 2 {
        '2'
    } else if n == 3 {
        '3'
    } else if n == 4 {
        '4'
    } else if n == 5 {
        '5'
    } else if n == 6 {
        '6'
    } else if n == 7 {
        '7'
    } else if n == 8 {
        '8'
    } else if n == 9 {
        '9'
    } else if n == 10 {
        'a'
    } else if n == 11 {
        'b'
    } else if n == 12 {
        'c'
    } else if n == 13 {
        'd'
    } else if n == 14 {
        'e'
    } else {
        'f'
    }
}

/// Position among the 32 hexadecimal digits of the character at `i` in the
/// hyphenated form.
pub open spec fn uuid_digit_index(i: int) -> int {
    if i < 8 {
        i
    } else if i < 13 {
        i - 1
    } else if i < 18 {
        i - 2
    } else if i < 23 {
        i - 3
    } else {
        i - 4
    }
}

/// The hyphenated lowercase text of a UUID: its 32 hexadecimal digits, most
/// significant first, grouped 8-4-4-4-12.
pub open spec fn uuid_hyphenated(v: u128) -> Seq<char> {
    Seq::new(
        36,
        |i: int|
            if i == 8 || i == 13 || i == 18 || i == 23 {
                '-'
            } else {
                hex_digit_char(
                    (v as int / pow16((31 - uuid_digit_index(i)) as nat)) % 16,
                )
            },
    )
}

/// A request identifier is the hyphenated lowercase text of a non-nil UUID.
pub open spec fn is_canonical_request_id(s: Seq<char>) -> bool {
    exists|v: u128| v != 0 && #[trigger] uuid_hyphenated(v) == s
}

/// What `uuid::Uuid::parse_str` yields for `text`, as the UUID's value.
pub uninterp spec fn uuid_parse(text: Seq<char>) -> Option<u128>;

/// Calls `uuid::Uuid::parse_str` and reads the result as its 128-bit
/// big-endian value. Trusted: the result is the name `uuid_parse` of the text,
/// and the hyphenated lowercase text of any value parses back to that value.
#[verifier::external_body]
fn parse_uuid(text: &str) -> (r: Option<u128>)
    ensures
        r == uuid_parse(text@),
        forall|v: u128| #[trigger] uuid_hyphenated(v) == text@ ==> r == Some(v),
{
    match uuid::Uuid::parse_str(text) {
        Ok(uuid) => Some(uuid.as_u128()),
        Err(_) => None,
    }
}

/// Calls `uuid::Uuid::from_u128(..).hyphenated().to_string()`. Trusted: the
/// text is the 8-4-4-4-12 lowercase hexadecimal form of the value.
#[verifier::external_body]
fn hyphenated_uuid(value: u128) -> (r: String)
    ensures
        r@ == uuid_hyphenated(value),
{
    uuid::Uuid::from_u128(value).hyphenated().to_string()
}

/// Given what the UUID parser made of `text`, whether `text` is the canonical
/// hyphenated form of a non-nil UUID.
pub fn request_id_matches(parsed: Option<u128>, text: &str) -> (r: bool)
    ensures
        r == (parsed matches Some(v) && v != 0 && uuid_hyphenated(v) == text@),
{
    match parsed {
        Some(value) => {
            if value == 0 {
                return false;
            }
            let canonical = hyphenated_uuid(value);
            str_eq(canonical.as_str(), text)
        },
        None => false,
    }
}

/// Whether `request_id` is the hyphenated lowercase text of a non-nil UUID.
pub fn is_valid_request_id(request_id: &str) -> (r: bool)
    ensures
        r == is_canonical_request_id(request_id@),
{
    let parsed = parse_uuid(request_id);
    let r = request_id_matches(parsed, request_id);
    proof {
        if r {
            let v = parsed->0;
            assert(v != 0 && uuid_hyphenated(v) == request_id@);
        } else {
            assert forall|v: u128| v != 0 implies #[trigger] uuid_hyphenated(v)
                != request_id@ by {
                if uuid_hyphenated(v) == request_id@ {
                    assert(parsed == Some(v));
                }
            }
        }
    }
    r
}

// ---------------------------------------------------------------------------
// Website origins
// ---------------------------------------------------------------------------

/// The components of a parsed URL that origin validation reads.
pub struct UrlParts {
    pub scheme: String,
    pub username: String,
    pub password: Option<String>,
    pub path: String,
    pub query: Option<String>,
    pub fragment: Option<String>,
    pub origin: String,
}

/// The character sequences of [`UrlParts`].
pub struct UrlPartsView {
    pub scheme: Seq<char>,
    pub username: Seq<char>,
    pub password: Option<Seq<char>>,
    pub path: Seq<char>,
    pub query: Option<Seq<char>>,
    pub fragment: Option<Seq<char>>,
    pub origin: Seq<char>,
}

/// View of an optional string.
pub open spec fn opt_text(s: Option<String>) -> Option<Seq<char>> {
    match s {
        Some(t) => Some(t@),
        None => None,
    }
}

impl View for UrlParts {
    type V = UrlPartsView;

    open spec fn view(&self) -> UrlPartsView {
        UrlPartsView {
            scheme: self.scheme@,
            username: self.username@,
            password: opt_text(self.password),
            path: self.path@,
            query: opt_text(self.query),
            fragment: opt_text(self.fragment),
            origin: self.origin@,
        }
    }
}

/// View of an optional parse result.
pub open spec fn opt_parts(p: Option<UrlParts>) -> Option<UrlPartsView> {
    match p {
        Some(parts) => Some(parts@),
        None => None,
    }
}

/// What `url::Url::parse` yields for `input`, read through its accessors
/// and its origin's ASCII serialization.
pub uninterp spec fn url_parse(input: Seq<char>) -> Option<UrlPartsView>;

/// Calls `url::Url::parse` and reads `scheme`, `username`, `password`,
/// `path`, `query`, `fragment` and `origin().ascii_serialization()`.
/// Trusted: the parts are the name `url_parse` of the input.
#[verifier::external_body]
fn parse_url_parts(input: &str) -> (r: Option<UrlParts>)
    ensures
        opt_parts(r) == url_parse(input@),
{
    let url = match url::Url::parse(input) {
        Ok(url) => url,
        Err(_) => return None,
    };
    Some(UrlParts {
        scheme: url.scheme().to_owned(),
        username: url.username().to_owned(),
        password: url.password().map(str::to_owned),
        path: url.path().to_owned(),
        query: url.query().map(str::to_owned),
        fragment: url.fragment().map(str::to_owned),
        origin: url.origin().ascii_serialization(),
    })
}

/// An origin is acceptable when it parses as an `http` or `https` URL with
/// no credentials, path `/`, no query or fragment, and is its own serialized
/// origin.
pub open spec fn origin_parts_acceptable(origin: Seq<char>, parts: Option<UrlPartsView>) -> bool {
    match parts {
        Some(p) => {
            &&& (p.scheme == "http"@ || p.scheme == "https"@)
            &&& p.username.len() == 0
            &&& p.password is None
            &&& p.path == "/"@
            &&& p.query is None
            &&& p.fragment is None
            &&& p.origin == origin
        },
        None => false,
    }
}

/// The website origin is within its byte limit and is a serialized web origin.
pub open spec fn origin_accepted(origin: Seq<char>) -> bool {
    utf8_len(origin) <= MAX_ORIGIN_BYTES && origin_parts_acceptable(origin, url_parse(origin))
}

/// Given what the URL parser made of `origin`, whether it is a serialized
/// `http` or `https` origin.
pub fn check_origin_parts(origin: &str, parts: &Option<UrlParts>) -> (r: bool)
    ensures
        r == origin_parts_acceptable(origin@, opt_parts(*parts)),
{
    let p = match parts {
        Some(p) => p,
        None => return false,
    };
    let web = str_eq(p.scheme.as_str(), "http") || str_eq(p.scheme.as_str(), "https");
    let no_credentials = p.username.as_str().is_empty() && p.password.is_none();
    let root_path = str_eq(p.path.as_str(), "/");
    web && no_credentials && root_path && p.query.is_none() && p.fragment.is_none() && str_eq(
        p.origin.as_str(),
        origin,
    )
}

fn validate_origin(origin: &str) -> (r: Result<(), ValidationError>)
    ensures
        r is Ok <==> origin_accepted(origin@),
        r is Err ==> r == Err::<(), _>(ValidationError::InvalidMessage),
{
    if origin.as_bytes().len() > MAX_ORIGIN_BYTES {
        return Err(ValidationError::InvalidMessage);
    }
    let parts = parse_url_parts(origin);
    if !check_origin_parts(origin, &parts) {
        return Err(ValidationError::InvalidMessage);
    }
    Ok(())
}

// ---------------------------------------------------------------------------
// Document names
// ---------------------------------------------------------------------------

/// A document name is display text: within its byte limit, not blank, and
/// free of control characters.
pub open spec fn document_name_accepted(name: Seq<char>) -> bool {
    utf8_len(name) <= MAX_DOCUMENT_NAME_BYTES && !is_blank(name) && !has_control(name)
}

// ---------------------------------------------------------------------------
// Binary payloads
// ---------------------------------------------------------------------------

/// What the canonical, padded standard-alphabet Base64 decoder of the
/// `base64` crate yields for `text`.
pub uninterp spec fn base64_decode(text: Seq<u8>) -> Option<Seq<u8>>;

/// View of an optional byte vector.
pub open spec fn opt_bytes(v: Option<Vec<u8>>) -> Option<Seq<u8>> {
    match v {
        Some(bytes) => Some(bytes@),
        None => None,
    }
}

/// Calls `base64::Engine::decode` on a `GeneralPurpose` engine with the
/// standard alphabet, canonical padding required and trailing bits refused.
/// Trusted: the result is the name `base64_decode` of the input's bytes.
#[verifier::external_body]
fn decode_base64(data: &str) -> (r: Option<Vec<u8>>)
    ensures
        opt_bytes(r) == base64_decode(encode_utf8(data@)),
{
    let config = base64::engine::GeneralPurposeConfig::new().with_decode_padding_mode(
        base64::engine::DecodePaddingMode::RequireCanonical,
    ).with_decode_allow_trailing_bits(false);
    let engine = base64::engine::GeneralPurpose::new(&base64::alphabet::STANDARD, config);
    base64::Engine::decode(&engine, data).ok()
}

/// SHA-256 of `data`.
pub uninterp spec fn sha256(data: Seq<u8>) -> Seq<u8>;

/// Calls `sha2::Sha256::digest`. Trusted: the 32-byte digest is the name
/// `sha256` of the data.
#[verifier::external_body]
fn sha256_digest(data: &[u8]) -> (r: [u8; 32])
    ensures
        r@ == sha256(data@),
{
    <sha2::Sha256 as sha2::Digest>::digest(data).into()
}

/// The largest Base64 text whose decoding can fit in `max` bytes.
pub open spec fn max_encoded_len(max: nat) -> nat {
    ((max + 2) / 3 * 4) as nat
}

/// Outcome of decoding `data` within `max` decoded bytes.
pub open spec fn decode_outcome(data: Seq<char>, max: nat) -> Result<Seq<u8>, ValidationError> {
    if utf8_len(data) > max_encoded_len(max) {
        Err(ValidationError::RequestTooLarge)
    } else {
        decoded_outcome(base64_decode(encode_utf8(data)), max)
    }
}

/// Outcome of a decoder result against the `max` decoded bytes.
pub open spec fn decoded_outcome(decoded: Option<Seq<u8>>, max: nat) -> Result<
    Seq<u8>,
    ValidationError,
> {
    match decoded {
        None => Err(ValidationError::InvalidMessage),
        Some(d) => if d.len() > max {
            Err(ValidationError::RequestTooLarge)
        } else {
            Ok(d)
        },
    }
}

/// Both results agree: equal decoded bytes, or the same error.
pub open spec fn same_bytes_outcome(
    actual: Result<Vec<u8>, ValidationError>,
    expected: Result<Seq<u8>, ValidationError>,
) -> bool {
    match (actual, expected) {
        (Ok(a), Ok(e)) => a@ == e,
        (Err(a), Err(e)) => a == e,
        _ => false,
    }
}

/// Given what the decoder made of the text, applies the decoded-size limit.
pub fn bounded_decoded(decoded: Option<Vec<u8>>, max_decoded_bytes: usize) -> (r: Result<
    Vec<u8>,
    ValidationError,
>)
    ensures
        same_bytes_outcome(r, decoded_outcome(opt_bytes(decoded), max_decoded_bytes as nat)),
{
    match decoded {
        None => Err(ValidationError::InvalidMessage),
        Some(bytes) => if bytes.len() > max_decoded_bytes {
            Err(ValidationError::RequestTooLarge)
        } else {
            Ok(bytes)
        },
    }
}

/// Decodes canonical padded Base64, refusing text too long for
/// `max_decoded_bytes` before decoding and any result above that size after.
pub fn decode_bounded(data: &str, max_decoded_bytes: usize) -> (r: Result<
    Vec<u8>,
    ValidationError,
>)
    requires
        max_encoded_len(max_decoded_bytes as nat) <= usize::MAX,
    ensures
        same_bytes_outcome(r, decode_outcome(data@, max_decoded_bytes as nat)),
{
    let rounded_up: usize = if max_decoded_bytes % 3 == 0 {
        0
    } else {
        1
    };
    let groups = max_decoded_bytes / 3 + rounded_up;
    assert(groups == (max_decoded_bytes as nat + 2) / 3) by (nonlinear_arith)
        requires
            groups == max_decoded_bytes / 3 + rounded_up,
            rounded_up == (if max_decoded_bytes % 3 == 0 { 0usize } else { 1usize }),
    ;
    let max_encoded_bytes = groups * 4;
    if data.as_bytes().len() > max_encoded_bytes {
        return Err(ValidationError::RequestTooLarge);
    }
    let decoded = decode_base64(data);
    bounded_decoded(decoded, max_decoded_bytes)
}

/// Which binary field is being validated; it decides the error category.
#[derive(Clone, Copy)]
pub enum PayloadKind {
    PreviewPdf,
    ByteRangeContent,
}

impl PayloadKind {
    /// The error for an invalid field of this kind.
    pub open spec fn spec_invalid_error(self) -> ValidationError {
        match self {
            PayloadKind::PreviewPdf => ValidationError::PdfInvalid,
            PayloadKind::ByteRangeContent => ValidationError::ByteRangeContentInvalid,
        }
    }

    /// The error for an invalid field of this kind.
    pub fn invalid_error(self) -> (r: ValidationError)
        ensures
            r == self.spec_invalid_error(),
    {
        match self {
            PayloadKind::PreviewPdf => ValidationError::PdfInvalid,
            PayloadKind::ByteRangeContent => ValidationError::ByteRangeContentInvalid,
        }
    }
}

/// Outcome of validating one binary field.
pub open spec fn binary_outcome(p: BinaryPayload, kind: PayloadKind) -> Result<
    Seq<u8>,
    ValidationError,
> {
    if p.encoding@ != "base64"@ || !is_lowercase_sha256_text(encode_utf8(p.sha256@)) {
        Err(kind.spec_invalid_error())
    } else {
        match decode_outcome(p.data@, MAX_BINARY_BYTES as nat) {
            Err(ValidationError::RequestTooLarge) => Err(ValidationError::RequestTooLarge),
            Err(_) => Err(kind.spec_invalid_error()),
            Ok(d) => if hex_pairs_match(sha256(d), encode_utf8(p.sha256@)) {
                Ok(d)
            } else {
                Err(kind.spec_invalid_error())
            },
        }
    }
}

/// Whether `value` is 64 lowercase hexadecimal digits.
pub fn is_lowercase_sha256(value: &str) -> (r: bool)
    ensures
        r == is_lowercase_sha256_text(encode_utf8(value@)),
{
    let bytes = value.as_bytes();
    if bytes.len() != 64 {
        return false;
    }
    let mut i: usize = 0;
    while i < bytes.len()
        invariant
            bytes@ == encode_utf8(value@),
            bytes@.len() == 64,
            i <= bytes@.len(),
            forall|j: int| 0 <= j < i ==> is_lower_hex_byte(#[trigger] bytes@[j]),
        decreases bytes@.len() - i,
    {
        let b = bytes[i];
        if !((0x30u8 <= b && b <= 0x39u8) || (0x61u8 <= b && b <= 0x66u8)) {
            return false;
        }
        i = i + 1;
    }
    true
}

/// The value of a lowercase hexadecimal digit; other bytes read as zero.
pub fn hex_nibble(value: u8) -> (r: u8)
    ensures
        r as int == hex_value(value),
        r < 16,
{
    if 0x30u8 <= value && value <= 0x39u8 {
        value - 0x30u8
    } else if 0x61u8 <= value && value <= 0x66u8 {
        value - 0x61u8 + 10
    } else {
        0
    }
}

/// Compares a digest with its expected hexadecimal text, touching every byte
/// whatever the outcome.
pub fn constant_time_eq(actual: &[u8], expected_hex: &[u8]) -> (r: bool)
    requires
        expected_hex@.len() >= 2 * actual@.len(),
    ensures
        r == hex_pairs_match(actual@, expected_hex@),
{
    let mut difference: u8 = 0;
    let mut index: usize = 0;
    let hex_len = expected_hex.len();
    while index < actual.len()
        invariant
            hex_len == expected_hex@.len(),
            expected_hex@.len() >= 2 * actual@.len(),
            index <= actual@.len(),
            (difference == 0) == (forall|j: int|
                0 <= j < index ==> #[trigger] actual@[j] as int == 16 * hex_value(
                    expected_hex@[2 * j],
                ) + hex_value(expected_hex@[2 * j + 1])),
        decreases actual@.len() - index,
    {
        let actual_byte = actual[index];
        let high = hex_nibble(expected_hex[index * 2]);
        let low = hex_nibble(expected_hex[index * 2 + 1]);
        let pair: u8 = high << 4 | low;
        assert(pair == high * 16 + low) by (bit_vector)
            requires
                high < 16,
                low < 16,
                pair == high << 4 | low,
        ;
        let old_difference = difference;
        difference = difference | (actual_byte ^ pair);
        assert((old_difference | (actual_byte ^ pair)) == 0 <==> (old_difference == 0
            && actual_byte == pair)) by (bit_vector);
        proof {
            let pair_ok = actual_byte == pair;
            assert(pair_ok == (actual@[index as int] as int == 16 * hex_value(
                expected_hex@[2 * index as int],
            ) + hex_value(expected_hex@[2 * index as int + 1])));
            if difference == 0 {
                assert forall|j: int| 0 <= j < index + 1 implies #[trigger] actual@[j] as int
                    == 16 * hex_value(expected_hex@[2 * j]) + hex_value(
                    expected_hex@[2 * j + 1],
                ) by {
                    if j < index {
                    }
                }
            }
        }
        index = index + 1;
    }
    difference == 0
}

fn validate_binary(payload: BinaryPayload, kind: PayloadKind) -> (r: Result<
    Vec<u8>,
    ValidationError,
>)
    ensures
        same_bytes_outcome(r, binary_outcome(payload, kind)),
{
    let BinaryPayload { encoding, data, sha256 } = payload;
    if !str_eq(encoding.as_str(), "base64") || !is_lowercase_sha256(sha256.as_str()) {
        return Err(kind.invalid_error());
    }
    let decoded = match decode_bounded(data.as_str(), MAX_BINARY_BYTES) {
        Ok(decoded) => decoded,
        Err(ValidationError::RequestTooLarge) => return Err(ValidationError::RequestTooLarge),
        Err(_) => return Err(kind.invalid_error()),
    };
    let actual_hash = sha256_digest(decoded.as_slice());
    if !constant_time_eq(&actual_hash, sha256.as_str().as_bytes()) {
        return Err(kind.invalid_error());
    }
    Ok(decoded)
}

// ---------------------------------------------------------------------------
// PDF header
// ---------------------------------------------------------------------------

/// The decoded preview starts with `%PDF-1.0` through `%PDF-1.7` or `%PDF-2.0`.
pub open spec fn pdf_header_ok(pdf: Seq<u8>) -> bool {
    &&& pdf.len() >= 8
    &&& pdf[0] == 0x25 && pdf[1] == 0x50 && pdf[2] == 0x44 && pdf[3] == 0x46 && pdf[4] == 0x2d
    &&& ((pdf[5] == 0x31 && pdf[6] == 0x2e && 0x30 <= pdf[7] <= 0x37) || (pdf[5] == 0x32
        && pdf[6] == 0x2e && pdf[7] == 0x30))
}

/// A preview passes the header check exactly when it begins with `%PDF-1.`
/// and a minor version from `0` to `7`, or with `%PDF-2.0`, whatever follows;
/// `%PDF-1.8`, `%PDF-2.1` and a text shorter than the header do not.
pub proof fn law_pdf_versions_one_zero_to_two_zero_are_accepted(minor: u8, rest: Seq<u8>)
    ensures
        0x30 <= minor <= 0x37 ==> pdf_header_ok(
            seq![0x25u8, 0x50u8, 0x44u8, 0x46u8, 0x2du8, 0x31u8, 0x2eu8, minor] + rest,
        ),
        pdf_header_ok(seq![0x25u8, 0x50u8, 0x44u8, 0x46u8, 0x2du8, 0x32u8, 0x2eu8, 0x30u8] + rest),
        !(0x30 <= minor <= 0x37) ==> !pdf_header_ok(
            seq![0x25u8, 0x50u8, 0x44u8, 0x46u8, 0x2du8, 0x31u8, 0x2eu8, minor] + rest,
        ),
        minor != 0x30 ==> !pdf_header_ok(
            seq![0x25u8, 0x50u8, 0x44u8, 0x46u8, 0x2du8, 0x32u8, 0x2eu8, minor] + rest,
        ),
        !pdf_header_ok(seq![0x25u8, 0x50u8, 0x44u8, 0x46u8, 0x2du8, 0x31u8, 0x2eu8]),
{
    let one = seq![0x25u8, 0x50u8, 0x44u8, 0x46u8, 0x2du8, 0x31u8, 0x2eu8, minor] + rest;
    let two = seq![0x25u8, 0x50u8, 0x44u8, 0x46u8, 0x2du8, 0x32u8, 0x2eu8, 0x30u8] + rest;
    let two_other = seq![0x25u8, 0x50u8, 0x44u8, 0x46u8, 0x2du8, 0x32u8, 0x2eu8, minor] + rest;
    assert(one[5] == 0x31u8 && one[6] == 0x2eu8 && one[7] == minor && one[0] == 0x25u8
        && one[1] == 0x50u8 && one[2] == 0x44u8 && one[3] == 0x46u8 && one[4] == 0x2du8);
    assert(two[5] == 0x32u8 && two[6] == 0x2eu8 && two[7] == 0x30u8 && two[0] == 0x25u8
        && two[1] == 0x50u8 && two[2] == 0x44u8 && two[3] == 0x46u8 && two[4] == 0x2du8);
    assert(two_other[5] == 0x32u8 && two_other[7] == minor);
}

fn has_valid_pdf_header(pdf: &[u8]) -> (r: bool)
    ensures
        r == pdf_header_ok(pdf@),
{
    if pdf.len() < 8 {
        return false;
    }
    if !(pdf[0] == 0x25u8 && pdf[1] == 0x50u8 && pdf[2] == 0x44u8 && pdf[3] == 0x46u8 && pdf[4] == 0x2du8) {
        return false;
    }
    (pdf[5] == 0x31u8 && pdf[6] == 0x2eu8 && 0x30u8 <= pdf[7] && pdf[7] <= 0x37u8) || (pdf[5] == 0x32u8
        && pdf[6] == 0x2eu8 && pdf[7] == 0x30u8)
}

// ---------------------------------------------------------------------------
// Whole requests
// ---------------------------------------------------------------------------

/// Why a request was refused.
#[derive(Clone, Copy, Debug, Eq, PartialEq)]
pub enum ValidationError {
    UnsupportedVersion,
    InvalidMessage,
    RequestTooLarge,
    PdfInvalid,
    ByteRangeContentInvalid,
}

/// The stable wire code reported for each validation failure.
pub open spec fn validation_error_code(e: ValidationError) -> ErrorCode {
    match e {
        ValidationError::UnsupportedVersion => ErrorCode::UnsupportedVersion,
        ValidationError::InvalidMessage => ErrorCode::InvalidMessage,
        ValidationError::RequestTooLarge => ErrorCode::RequestTooLarge,
        ValidationError::PdfInvalid => ErrorCode::PdfInvalid,
        ValidationError::ByteRangeContentInvalid => ErrorCode::ByterangeContentInvalid,
    }
}

impl ValidationError {
    /// The stable wire code for this failure.
    pub fn error_code(self) -> (r: ErrorCode)
        ensures
            r == validation_error_code(self),
    {
        match self {
            ValidationError::UnsupportedVersion => ErrorCode::UnsupportedVersion,
            ValidationError::InvalidMessage => ErrorCode::InvalidMessage,
            ValidationError::RequestTooLarge => ErrorCode::RequestTooLarge,
            ValidationError::PdfInvalid => ErrorCode::PdfInvalid,
            ValidationError::ByteRangeContentInvalid => ErrorCode::ByterangeContentInvalid,
        }
    }
}

/// A request that passed validation, with its binary fields decoded.
pub struct ValidatedRequest {
    request_id: String,
    website_origin: String,
    document_name: String,
    preview_pdf: Vec<u8>,
    byte_range_content: Vec<u8>,
}

/// The content of a [`ValidatedRequest`].
pub struct ValidatedView {
    pub request_id: Seq<char>,
    pub website_origin: Seq<char>,
    pub document_name: Seq<char>,
    pub preview_pdf: Seq<u8>,
    pub byte_range_content: Seq<u8>,
}

impl View for ValidatedRequest {
    type V = ValidatedView;

    closed spec fn view(&self) -> ValidatedView {
        ValidatedView {
            request_id: self.request_id@,
            website_origin: self.website_origin@,
            document_name: self.document_name@,
            preview_pdf: self.preview_pdf@,
            byte_range_content: self.byte_range_content@,
        }
    }
}

/// The owned fields of a validated request.
pub struct ValidatedRequestParts {
    pub request_id: String,
    pub website_origin: String,
    pub document_name: String,
    pub preview_pdf: Vec<u8>,
    pub byte_range_content: Vec<u8>,
}

impl ValidatedRequest {
    pub fn request_id(&self) -> (r: &str)
        ensures
            r@ == self@.request_id,
    {
        self.request_id.as_str()
    }

    pub fn website_origin(&self) -> (r: &str)
        ensures
            r@ == self@.website_origin,
    {
        self.website_origin.as_str()
    }

    pub fn document_name(&self) -> (r: &str)
        ensures
            r@ == self@.document_name,
    {
        self.document_name.as_str()
    }

    pub fn preview_pdf(&self) -> (r: &[u8])
        ensures
            r@ == self@.preview_pdf,
    {
        self.preview_pdf.as_slice()
    }

    pub fn byte_range_content(&self) -> (r: &[u8])
        ensures
            r@ == self@.byte_range_content,
    {
        self.byte_range_content.as_slice()
    }

    /// Hands the owned fields to the caller.
    pub fn into_parts(self) -> (r: ValidatedRequestParts)
        ensures
            r.request_id@ == self@.request_id,
            r.website_origin@ == self@.website_origin,
            r.document_name@ == self@.document_name,
            r.preview_pdf@ == self@.preview_pdf,
            r.byte_range_content@ == self@.byte_range_content,
    {
        ValidatedRequestParts {
            request_id: self.request_id,
            website_origin: self.website_origin,
            document_name: self.document_name,
            preview_pdf: self.preview_pdf,
            byte_range_content: self.byte_range_content,
        }
    }
}

/// The outcome of validating a whole request, checked in wire order:
/// version, type and identifier, origin, name, preview (then its PDF header),
/// ByteRange content.
pub open spec fn request_outcome(r: SignRequest) -> Result<ValidatedView, ValidationError> {
    if r.version != VERSION {
        Err(ValidationError::UnsupportedVersion)
    } else if r.message_type@ != "sign_request"@ || !is_canonical_request_id(r.request_id@) {
        Err(ValidationError::InvalidMessage)
    } else if !origin_accepted(r.website_origin@) {
        Err(ValidationError::InvalidMessage)
    } else if !document_name_accepted(r.document_name@) {
        Err(ValidationError::InvalidMessage)
    } else {
        match binary_outcome(r.preview_pdf, PayloadKind::PreviewPdf) {
            Err(e) => Err(e),
            Ok(pdf) => if !pdf_header_ok(pdf) {
                Err(ValidationError::PdfInvalid)
            } else {
                match binary_outcome(r.byte_range_content, PayloadKind::ByteRangeContent) {
                    Err(e) => Err(e),
                    Ok(content) => Ok(
                        ValidatedView {
                            request_id: r.request_id@,
                            website_origin: r.website_origin@,
                            document_name: r.document_name@,
                            preview_pdf: pdf,
                            byte_range_content: content,
                        },
                    ),
                }
            },
        }
    }
}

/// Both results agree: the same validated content, or the same error.
pub open spec fn same_request_outcome(
    actual: Result<ValidatedRequest, ValidationError>,
    expected: Result<ValidatedView, ValidationError>,
) -> bool {
    match (actual, expected) {
        (Ok(a), Ok(e)) => a@ == e,
        (Err(a), Err(e)) => a == e,
        _ => false,
    }
}

/// Validates and decodes a version-one request before it reaches any UI.
pub fn validate_request(request: SignRequest) -> (r: Result<ValidatedRequest, ValidationError>)
    ensures
        same_request_outcome(r, request_outcome(request)),
{
    let SignRequest {
        version,
        message_type,
        request_id,
        website_origin,
        document_name,
        preview_pdf,
        byte_range_content,
    } = request;

    if version != VERSION {
        return Err(ValidationError::UnsupportedVersion);
    }
    if !str_eq(message_type.as_str(), "sign_request") || !is_valid_request_id(
        request_id.as_str(),
    ) {
        return Err(ValidationError::InvalidMessage);
    }
    match validate_origin(website_origin.as_str()) {
        Ok(()) => {},
        Err(e) => return Err(e),
    }
    if document_name.as_str().as_bytes().len() > MAX_DOCUMENT_NAME_BYTES || trims_to_empty(
        document_name.as_str(),
    ) || contains_control(document_name.as_str()) {
        return Err(ValidationError::InvalidMessage);
    }
    let preview_pdf = match validate_binary(preview_pdf, PayloadKind::PreviewPdf) {
        Ok(bytes) => bytes,
        Err(e) => return Err(e),
    };
    if !has_valid_pdf_header(preview_pdf.as_slice()) {
        return Err(ValidationError::PdfInvalid);
    }
    let byte_range_content = match validate_binary(
        byte_range_content,
        PayloadKind::ByteRangeContent,
    ) {
        Ok(bytes) => bytes,
        Err(e) => return Err(e),
    };
    Ok(ValidatedRequest {
        request_id,
        website_origin,
        document_name,
        preview_pdf,
        byte_range_content,
    })
}

} // verus!
