//! Decisions of the Chrome native-messaging host: which terminal response
//! answers each way a request can fail, and how a validated request reaches
//! the desktop UI. Reading and writing the standard streams, and JSON, are
//! the caller's.

use vstd::prelude::*;

use crate::native_framing::FrameError;
use crate::protocol::{is_error_for, ErrorCode, SignError, SignRequest, TerminalResponse, VERSION};
use crate::validation::{
    is_canonical_request_id, is_valid_request_id, request_outcome, validate_request,
    validation_error_code, ValidatedRequest, ValidationError,
};

verus! {

/// The desktop UI could not be reached.
#[derive(Clone, Copy, Debug)]
pub struct UiUnavailable;

/// The channel through which a validated request reaches the desktop UI.
pub trait UiAdapter {
    /// Transfers a validated request and waits for one terminal outcome, or
    /// reports that the UI channel is unavailable.
    fn handle_request(&mut self, request: ValidatedRequest) -> Result<
        TerminalResponse,
        UiUnavailable,
    >;
}

/// How one round of the host ended.
#[derive(Clone, Copy, Debug, Eq, PartialEq)]
pub enum ServeOutcome {
    CleanEof,
    Responded,
}

/// The two envelope fields the host reads before version-specific decoding.
pub struct EnvelopeMetadata {
    pub version: Option<u32>,
    pub request_id: Option<String>,
}

/// Message for an oversized request.
pub open spec fn too_large_message() -> Seq<char> {
    "The request exceeds the supported size limit."@
}

/// Message for a truncated frame.
pub open spec fn truncated_message() -> Seq<char> {
    "The native message is truncated."@
}

/// Message for a body that is not a JSON envelope.
pub open spec fn not_json_message() -> Seq<char> {
    "The request is not a valid JSON envelope."@
}

/// Message for an unknown protocol version.
pub open spec fn unsupported_version_message() -> Seq<char> {
    "The protocol version is unsupported."@
}

/// Message for an envelope that does not decode as a version-one request.
pub open spec fn incomplete_message() -> Seq<char> {
    "The request envelope is incomplete or invalid."@
}

/// Message when the desktop cannot be reached.
pub open spec fn ui_unavailable_message() -> Seq<char> {
    "The desktop user interface is unavailable."@
}

/// The display message for each validation failure.
pub open spec fn validation_message(e: ValidationError) -> Seq<char> {
    match e {
        ValidationError::UnsupportedVersion => "The protocol version is unsupported."@,
        ValidationError::InvalidMessage => "The request envelope is invalid."@,
        ValidationError::RequestTooLarge => "The request exceeds the supported size limit."@,
        ValidationError::PdfInvalid => "The preview PDF is invalid."@,
        ValidationError::ByteRangeContentInvalid => "The ByteRange content is invalid."@,
    }
}

/// View of an optional request identifier.
pub open spec fn opt_id(id: Option<String>) -> Option<Seq<char>> {
    match id {
        Some(s) => Some(s@),
        None => None,
    }
}

/// A version-one error envelope.
pub fn protocol_error(request_id: Option<String>, code: ErrorCode, message: &str) -> (r:
    SignError)
    ensures
        is_error_for(TerminalResponse::Error(r), opt_id(request_id), code, message@),
{
    SignError::new(request_id, code, message.to_owned())
}

/// The error envelope reporting a validation failure.
pub fn validation_response(request_id: Option<String>, error: ValidationError) -> (r: SignError)
    ensures
        is_error_for(
            TerminalResponse::Error(r),
            opt_id(request_id),
            validation_error_code(error),
            validation_message(error),
        ),
{
    let message = match error {
        ValidationError::UnsupportedVersion => "The protocol version is unsupported.",
        ValidationError::InvalidMessage => "The request envelope is invalid.",
        ValidationError::RequestTooLarge => "The request exceeds the supported size limit.",
        ValidationError::PdfInvalid => "The preview PDF is invalid.",
        ValidationError::ByteRangeContentInvalid => "The ByteRange content is invalid.",
    };
    protocol_error(request_id, error.error_code(), message)
}

/// Message for a frame whose bytes could not be read.
pub open spec fn unreadable_message() -> Seq<char> {
    "The native message could not be read."@
}

/// The answer to a frame that could not be read: oversize is
/// `REQUEST_TOO_LARGE`, truncation `INVALID_MESSAGE`, and a failed read of
/// the input `INVALID_MESSAGE` too, all without a request identifier, so
/// that every input failure is answered with a terminal error.
pub fn frame_error_response(error: FrameError) -> (r: TerminalResponse)
    ensures
        error is TooLarge ==> is_error_for(
            r,
            None,
            ErrorCode::RequestTooLarge,
            too_large_message(),
        ),
        error is TruncatedPrefix || error is TruncatedBody ==> is_error_for(
            r,
            None,
            ErrorCode::InvalidMessage,
            truncated_message(),
        ),
        error is Io ==> is_error_for(r, None, ErrorCode::InvalidMessage, unreadable_message()),
{
    match error {
        FrameError::TooLarge => TerminalResponse::Error(
            protocol_error(
                None,
                ErrorCode::RequestTooLarge,
                "The request exceeds the supported size limit.",
            ),
        ),
        FrameError::TruncatedPrefix => TerminalResponse::Error(
            protocol_error(None, ErrorCode::InvalidMessage, "The native message is truncated."),
        ),
        FrameError::TruncatedBody => TerminalResponse::Error(
            protocol_error(None, ErrorCode::InvalidMessage, "The native message is truncated."),
        ),
        FrameError::Io(_) => TerminalResponse::Error(
            protocol_error(
                None,
                ErrorCode::InvalidMessage,
                "The native message could not be read.",
            ),
        ),
    }
}

/// The answer to a body that is not a JSON envelope.
pub fn invalid_json_response() -> (r: TerminalResponse)
    ensures
        is_error_for(r, None, ErrorCode::InvalidMessage, not_json_message()),
{
    TerminalResponse::Error(
        protocol_error(None, ErrorCode::InvalidMessage, "The request is not a valid JSON envelope."),
    )
}

/// The identifier an error may repeat: the envelope's, when it is a valid
/// request identifier.
pub open spec fn error_request_id(metadata_id: Option<Seq<char>>) -> Option<Seq<char>> {
    match metadata_id {
        Some(id) => if is_canonical_request_id(id) {
            Some(id)
        } else {
            None
        },
        None => None,
    }
}

/// An error answering an envelope repeats its request identifier exactly
/// when that identifier is a valid one; any other text, or none, is answered
/// with a null identifier.
pub proof fn law_errors_repeat_exactly_the_valid_identifiers(metadata_id: Option<Seq<char>>)
    ensures
        (metadata_id matches Some(id) && is_canonical_request_id(id)) ==> error_request_id(
            metadata_id,
        ) == metadata_id,
        !(metadata_id matches Some(id) && is_canonical_request_id(id)) ==> error_request_id(
            metadata_id,
        ) is None,
{
}

/// Screens the envelope before version-specific decoding: a declared version
/// other than one is answered `UNSUPPORTED_VERSION`; otherwise the
/// identifier later errors may repeat is returned.
pub fn screen_envelope(metadata: EnvelopeMetadata) -> (r: Result<Option<String>, TerminalResponse>)
    ensures
        match r {
            Ok(id) => !(metadata.version matches Some(v) && v != VERSION) && opt_id(id)
                == error_request_id(opt_id(metadata.request_id)),
            Err(resp) => metadata.version matches Some(v) && v != VERSION && is_error_for(
                resp,
                error_request_id(opt_id(metadata.request_id)),
                ErrorCode::UnsupportedVersion,
                unsupported_version_message(),
            ),
        },
{
    let EnvelopeMetadata { version, request_id } = metadata;
    let error_request_id = match request_id {
        Some(id) => if is_valid_request_id(id.as_str()) {
            Some(id)
        } else {
            None
        },
        None => None,
    };
    match version {
        Some(v) => if v != VERSION {
            return Err(
                TerminalResponse::Error(
                    protocol_error(
                        error_request_id,
                        ErrorCode::UnsupportedVersion,
                        "The protocol version is unsupported.",
                    ),
                ),
            );
        },
        None => {},
    }
    Ok(error_request_id)
}

/// Admits a decoded request: an envelope that did not decode is
/// `INVALID_MESSAGE`; a request that fails validation gets its category's
/// error; both repeat `error_request_id`.
pub fn admit_request(error_request_id: Option<String>, request: Option<SignRequest>) -> (r: Result<
    ValidatedRequest,
    TerminalResponse,
>)
    ensures
        request is None ==> (r matches Err(resp) && is_error_for(
            resp,
            opt_id(error_request_id),
            ErrorCode::InvalidMessage,
            incomplete_message(),
        )),
        request matches Some(req) ==> match (r, request_outcome(req)) {
            (Ok(v), Ok(w)) => v@ == w,
            (Err(resp), Err(e)) => is_error_for(
                resp,
                opt_id(error_request_id),
                validation_error_code(e),
                validation_message(e),
            ),
            _ => false,
        },
{
    let request = match request {
        Some(request) => request,
        None => {
            return Err(
                TerminalResponse::Error(
                    protocol_error(
                        error_request_id,
                        ErrorCode::InvalidMessage,
                        "The request envelope is incomplete or invalid.",
                    ),
                ),
            )
        },
    };
    match validate_request(request) {
        Ok(validated) => Ok(validated),
        Err(error) => Err(TerminalResponse::Error(validation_response(error_request_id, error))),
    }
}

/// The terminal answer for a request the UI handled: its response, or
/// `IPC_FAILED` for the request when the UI was unavailable.
pub fn ui_outcome_response(
    request_id: String,
    outcome: Result<TerminalResponse, UiUnavailable>,
) -> (r: TerminalResponse)
    ensures
        outcome matches Ok(resp) ==> r == resp,
        outcome is Err ==> is_error_for(
            r,
            Some(request_id@),
            ErrorCode::IpcFailed,
            ui_unavailable_message(),
        ),
{
    match outcome {
        Ok(response) => response,
        Err(UiUnavailable) => TerminalResponse::Error(
            protocol_error(
                Some(request_id),
                ErrorCode::IpcFailed,
                "The desktop user interface is unavailable.",
            ),
        ),
    }
}

/// Hands a validated request to the UI and turns its outcome into the one
/// terminal response. The UI's own answer is whatever it returns; when it
/// is unavailable the answer is `IPC_FAILED` for the request.
pub fn handle_validated_request<U: UiAdapter>(
    ui: &mut U,
    request: ValidatedRequest,
) -> TerminalResponse {
    let request_id = request.request_id().to_owned();
    let outcome = ui.handle_request(request);
    ui_outcome_response(request_id, outcome)
}

} // verus!
