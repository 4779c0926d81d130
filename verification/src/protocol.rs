//! Version-one wire models shared by the native host and the desktop.
//!
//! This module owns the envelope shapes and the stable machine-readable codes.
//! It performs no transport I/O, request validation or signing.

use vstd::prelude::*;

verus! {

/// The only protocol version this build speaks.
pub const VERSION: u32 = 1;

/// A version-one signing request as it arrives from the extension.
#[derive(Clone, Debug, Eq, PartialEq)]
pub struct SignRequest {
    pub version: u32,
    pub message_type: String,
    pub request_id: String,
    pub website_origin: String,
    pub document_name: String,
    pub preview_pdf: BinaryPayload,
    pub byte_range_content: BinaryPayload,
}

/// A Base64 binary field with its transport hash.
#[derive(Clone, Debug, Eq, PartialEq)]
pub struct BinaryPayload {
    pub encoding: String,
    pub data: String,
    pub sha256: String,
}

/// The detached CMS carried by a success response.
#[derive(Clone, Debug, Eq, PartialEq)]
pub struct CmsPayload {
    pub format: String,
    pub encoding: String,
    pub data: String,
    pub sha256: String,
}

/// The `sign_success` discriminator.
#[derive(Clone, Copy, Debug, Eq, PartialEq)]
pub enum SignSuccessType {
    SignSuccess,
}

/// The `sign_cancelled` discriminator.
#[derive(Clone, Copy, Debug, Eq, PartialEq)]
pub enum SignCancelledType {
    SignCancelled,
}

/// The `sign_error` discriminator.
#[derive(Clone, Copy, Debug, Eq, PartialEq)]
pub enum SignErrorType {
    SignError,
}

/// A terminal success envelope.
#[derive(Clone, Debug, Eq, PartialEq)]
pub struct SignSuccess {
    pub version: u32,
    pub message_type: SignSuccessType,
    pub request_id: String,
    pub cms: CmsPayload,
}

impl SignSuccess {
    /// Builds a version-one success envelope for `request_id`.
    pub fn new(request_id: String, cms: CmsPayload) -> (r: Self)
        ensures
            r.version == VERSION,
            r.request_id == request_id,
            r.cms == cms,
    {
        SignSuccess { version: VERSION, message_type: SignSuccessType::SignSuccess, request_id, cms }
    }
}

/// A terminal cancellation envelope.
#[derive(Clone, Debug, Eq, PartialEq)]
pub struct SignCancelled {
    pub version: u32,
    pub message_type: SignCancelledType,
    pub request_id: String,
    pub reason: CancellationReason,
}

impl SignCancelled {
    /// Builds a version-one cancellation envelope for `request_id`.
    pub fn new(request_id: String, reason: CancellationReason) -> (r: Self)
        ensures
            r.version == VERSION,
            r.request_id == request_id,
            r.reason == reason,
    {
        SignCancelled {
            version: VERSION,
            message_type: SignCancelledType::SignCancelled,
            request_id,
            reason,
        }
    }
}

/// Why the user ended a request: `user_cancelled` or `window_closed` on the wire.
#[derive(Clone, Copy, Debug, Eq, PartialEq)]
pub enum CancellationReason {
    UserCancelled,
    WindowClosed,
}

/// A terminal error envelope. `request_id` is `None` only when the host
/// could not decode a valid envelope identifier.
#[derive(Clone, Debug, Eq, PartialEq)]
pub struct SignError {
    pub version: u32,
    pub message_type: SignErrorType,
    pub request_id: Option<String>,
    pub error: ErrorDetail,
}

impl SignError {
    /// Builds a version-one error envelope.
    pub fn new(request_id: Option<String>, code: ErrorCode, message: String) -> (r: Self)
        ensures
            r.version == VERSION,
            r.request_id == request_id,
            r.error.code == code,
            r.error.message == message,
    {
        SignError {
            version: VERSION,
            message_type: SignErrorType::SignError,
            request_id,
            error: ErrorDetail { code, message },
        }
    }
}

/// The machine-readable code and display message of an error envelope.
#[derive(Clone, Debug, Eq, PartialEq)]
pub struct ErrorDetail {
    pub code: ErrorCode,
    pub message: String,
}

/// The stable error codes; on the wire each is its name in SCREAMING_SNAKE_CASE.
#[derive(Clone, Copy, Debug, Eq, PartialEq)]
pub enum ErrorCode {
    UnsupportedVersion,
    InvalidMessage,
    RequestTooLarge,
    Busy,
    RequestTimeout,
    ExtensionDisconnected,
    PdfInvalid,
    PdfEncrypted,
    PdfRenderFailed,
    ByterangeContentInvalid,
    NoCertificates,
    CertificateUnavailable,
    KeyAlgorithmUnsupported,
    KeyAccessDenied,
    ProviderCancelled,
    SigningFailed,
    ResponseTooLarge,
    IpcFailed,
    InternalError,
}

/// Exactly one of these ends every accepted request.
#[derive(Clone, Debug, Eq, PartialEq)]
pub enum TerminalResponse {
    Success(SignSuccess),
    Cancelled(SignCancelled),
    Error(SignError),
}

/// `r` is a version-one error envelope for `request_id` with `code` and `message`.
pub open spec fn is_error_for(
    r: TerminalResponse,
    request_id: Option<Seq<char>>,
    code: ErrorCode,
    message: Seq<char>,
) -> bool {
    &&& r matches TerminalResponse::Error(e)
    &&& e.version == VERSION
    &&& e.error.code == code
    &&& e.error.message@ == message
    &&& match (e.request_id, request_id) {
        (Some(actual), Some(expected)) => actual@ == expected,
        (None, None) => true,
        _ => false,
    }
}

/// `r` is a version-one cancellation envelope for `request_id` with `reason`.
pub open spec fn is_cancellation_for(
    r: TerminalResponse,
    request_id: Seq<char>,
    reason: CancellationReason,
) -> bool {
    &&& r matches TerminalResponse::Cancelled(c)
    &&& c.version == VERSION
    &&& c.request_id@ == request_id
    &&& c.reason == reason
}

} // verus!
