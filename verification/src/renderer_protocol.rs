//! Versioned, bounded messages for the isolated PDF renderer.
//!
//! Each frame is a four-byte little-endian payload length followed by one
//! encoded request or response. Lengths are checked before any allocation,
//! and every message is checked against its resource limits in both
//! directions.

use vstd::prelude::*;

use crate::byte_io::{fill_step, FillStep, flush, is_unexpected_eof, le_u32, read_exact, read_retrying, u32_from_le, u32_to_le, write_all};
use crate::text::utf8_len;

verus! {

/// The renderer protocol version this build speaks.
pub const PROTOCOL_VERSION: u16 = 1;

/// Largest document the renderer opens.
pub const MAX_DOCUMENT_BYTES: usize = 50 * 1024 * 1024;

/// Largest page count a document may report.
pub const MAX_PAGE_COUNT: u32 = 100_000;

/// Largest width or height of a rendered page, in pixels.
pub const MAX_RENDER_DIMENSION: u32 = 8_192;

/// Largest pixel count of a rendered page.
pub const MAX_RENDER_PIXELS: usize = 16 * 1024 * 1024;

/// Largest RGBA output of a rendered page.
pub const MAX_RENDER_OUTPUT_BYTES: usize = MAX_RENDER_PIXELS * 4;

/// Largest renderer error message, in UTF-8 bytes.
pub const MAX_ERROR_MESSAGE_BYTES: usize = 1_024;

/// Largest request frame payload.
pub const MAX_REQUEST_FRAME_BYTES: usize = MAX_DOCUMENT_BYTES + 64 * 1024;

/// Largest response frame payload.
pub const MAX_RESPONSE_FRAME_BYTES: usize = MAX_RENDER_OUTPUT_BYTES + 64 * 1024;

/// A renderer request.
#[derive(Clone, Debug, Eq, PartialEq)]
pub struct Request {
    pub version: u16,
    pub request_id: u64,
    pub command: RequestCommand,
}

/// What the renderer is asked to do.
#[derive(Clone, Debug, Eq, PartialEq)]
pub enum RequestCommand {
    OpenDocument(OpenDocument),
    PageMetadata(PageMetadataRequest),
    RenderPage(RenderPageRequest),
    CloseDocument,
    Shutdown,
}

/// The document to open.
#[derive(Clone, Debug, Eq, PartialEq)]
pub struct OpenDocument {
    pub document: Vec<u8>,
}

/// The page whose metadata is wanted.
#[derive(Clone, Copy, Debug, Eq, PartialEq)]
pub struct PageMetadataRequest {
    pub page_index: u32,
}

/// The page to render and its output size in pixels.
#[derive(Clone, Copy, Debug, Eq, PartialEq)]
pub struct RenderPageRequest {
    pub page_index: u32,
    pub width: u32,
    pub height: u32,
}

/// A renderer response.
#[derive(Clone, Debug, Eq, PartialEq)]
pub struct Response {
    pub version: u16,
    pub request_id: u64,
    pub result: ResponseResult,
}

/// What the renderer answers.
#[derive(Clone, Debug, Eq, PartialEq)]
pub enum ResponseResult {
    DocumentOpened(DocumentOpened),
    PageMetadata(PageMetadata),
    PageRendered(RenderedPage),
    DocumentClosed,
    ShuttingDown,
    Error(RendererError),
}

/// The opened document's page count.
#[derive(Clone, Copy, Debug, Eq, PartialEq)]
pub struct DocumentOpened {
    pub page_count: u32,
}

/// A page's size in thousandths of a point.
#[derive(Clone, Copy, Debug, Eq, PartialEq)]
pub struct PageMetadata {
    pub page_index: u32,
    pub width_millipoints: u32,
    pub height_millipoints: u32,
}

/// A rendered page as tightly packed pixels.
#[derive(Clone, Debug, Eq, PartialEq)]
pub struct RenderedPage {
    pub page_index: u32,
    pub width: u32,
    pub height: u32,
    pub stride: u32,
    pub format: PixelFormat,
    pub pixels: Vec<u8>,
}

/// Pixel layout of rendered pages.
#[derive(Clone, Copy, Debug, Eq, PartialEq)]
pub enum PixelFormat {
    Rgba8,
}

/// A structured renderer failure.
#[derive(Clone, Debug, Eq, PartialEq)]
pub struct RendererError {
    pub code: RendererErrorCode,
    pub message: String,
}

/// Stable renderer failure categories.
#[derive(Clone, Copy, Debug, Eq, PartialEq)]
pub enum RendererErrorCode {
    InvalidRequest,
    UnsupportedVersion,
    DocumentTooLarge,
    InvalidPdf,
    EncryptedPdf,
    DocumentNotOpen,
    PageOutOfRange,
    InvalidDimensions,
    RenderTooLarge,
    RenderFailed,
    Internal,
}

/// The resource limit that a message exceeded.
#[derive(Clone, Copy, Debug, Eq, PartialEq)]
pub enum Limit {
    FrameBytes,
    DocumentBytes,
    PageCount,
    PageIndex,
    RenderDimension,
    RenderPixels,
    RenderOutputBytes,
    ErrorMessageBytes,
}

/// `postcard::Error`, carried through untouched.
#[verifier::external_type_specification]
#[verifier::external_body]
pub struct ExPostcardError(postcard::Error);

/// Why a renderer message was refused or could not be moved.
#[derive(Debug)]
pub enum ProtocolError {
    Io(std::io::Error),
    Truncated,
    UnsupportedVersion { actual: u16 },
    LimitExceeded { limit: Limit, actual: usize, maximum: usize },
    InvalidMessage(&'static str),
    Serialize(postcard::Error),
    Deserialize(postcard::Error),
}

/// The verdict of a message check, as the contracts describe it.
pub enum Verdict {
    Valid,
    UnsupportedVersion(u16),
    LimitExceeded(Limit, nat, nat),
    Invalid(Seq<char>),
}

/// `r` reports exactly the verdict `v`.
pub open spec fn reports(r: Result<(), ProtocolError>, v: Verdict) -> bool {
    match (r, v) {
        (Ok(()), Verdict::Valid) => true,
        (
            Err(ProtocolError::UnsupportedVersion { actual }),
            Verdict::UnsupportedVersion(expected),
        ) => actual == expected,
        (
            Err(ProtocolError::LimitExceeded { limit, actual, maximum }),
            Verdict::LimitExceeded(l, a, m),
        ) => limit == l && actual as nat == a && maximum as nat == m,
        (Err(ProtocolError::InvalidMessage(message)), Verdict::Invalid(text)) => message@ == text,
        _ => false,
    }
}

/// The first failing verdict of two checks made in order.
pub open spec fn then(first: Verdict, second: Verdict) -> Verdict {
    match first {
        Verdict::Valid => second,
        _ => first,
    }
}

/// `actual` is within `maximum`.
pub open spec fn limit_verdict(limit: Limit, actual: nat, maximum: nat) -> Verdict {
    if actual <= maximum {
        Verdict::Valid
    } else {
        Verdict::LimitExceeded(limit, actual, maximum)
    }
}

/// Only the current protocol version is spoken.
pub open spec fn version_verdict(version: u16) -> Verdict {
    if version == PROTOCOL_VERSION {
        Verdict::Valid
    } else {
        Verdict::UnsupportedVersion(version)
    }
}

/// Page indices stay below the page-count limit.
pub open spec fn page_index_verdict(page_index: u32) -> Verdict {
    limit_verdict(Limit::PageIndex, page_index as nat, (MAX_PAGE_COUNT - 1) as nat)
}

/// Render sizes are nonzero, bounded per side and bounded in pixel count.
pub open spec fn dimensions_verdict(width: u32, height: u32) -> Verdict {
    if width == 0 || height == 0 {
        Verdict::Invalid("render dimensions must be nonzero"@)
    } else {
        then(
            limit_verdict(Limit::RenderDimension, width as nat, MAX_RENDER_DIMENSION as nat),
            then(
                limit_verdict(Limit::RenderDimension, height as nat, MAX_RENDER_DIMENSION as nat),
                limit_verdict(
                    Limit::RenderPixels,
                    (width * height) as nat,
                    MAX_RENDER_PIXELS as nat,
                ),
            ),
        )
    }
}

/// A render size passes exactly when both sides are nonzero and at most
/// `MAX_RENDER_DIMENSION`, and the pixel count, width times height, is at
/// most `MAX_RENDER_PIXELS`.
pub proof fn law_render_sizes_within_the_limits_pass(width: u32, height: u32)
    ensures
        dimensions_verdict(width, height) is Valid <==> (0 < width <= MAX_RENDER_DIMENSION && 0
            < height <= MAX_RENDER_DIMENSION && width as int * height as int
            <= MAX_RENDER_PIXELS as int),
{
}

/// A rendered page is a valid render whose stride and pixel buffer match
/// its RGBA dimensions exactly.
pub open spec fn rendered_page_verdict(page: RenderedPage) -> Verdict {
    then(
        page_index_verdict(page.page_index),
        then(
            dimensions_verdict(page.width, page.height),
            if page.stride != page.width * 4 {
                Verdict::Invalid("render stride is invalid"@)
            } else {
                then(
                    limit_verdict(
                        Limit::RenderOutputBytes,
                        (page.stride * page.height) as nat,
                        MAX_RENDER_OUTPUT_BYTES as nat,
                    ),
                    if page.pixels@.len() != page.stride * page.height {
                        Verdict::Invalid("render output length does not match dimensions"@)
                    } else {
                        Verdict::Valid
                    },
                )
            },
        ),
    )
}

/// The verdict on a request's command.
pub open spec fn command_verdict(command: RequestCommand) -> Verdict {
    match command {
        RequestCommand::OpenDocument(open) => if open.document@.len() == 0 {
            Verdict::Invalid("document is empty"@)
        } else {
            limit_verdict(
                Limit::DocumentBytes,
                open.document@.len(),
                MAX_DOCUMENT_BYTES as nat,
            )
        },
        RequestCommand::PageMetadata(metadata) => page_index_verdict(metadata.page_index),
        RequestCommand::RenderPage(render) => then(
            page_index_verdict(render.page_index),
            dimensions_verdict(render.width, render.height),
        ),
        RequestCommand::CloseDocument => Verdict::Valid,
        RequestCommand::Shutdown => Verdict::Valid,
    }
}

/// The verdict on a whole request: version first, then its command.
pub open spec fn request_verdict(request: Request) -> Verdict {
    then(version_verdict(request.version), command_verdict(request.command))
}

/// The verdict on a response's result.
pub open spec fn result_verdict(result: ResponseResult) -> Verdict {
    match result {
        ResponseResult::DocumentOpened(opened) => if opened.page_count == 0 {
            Verdict::Invalid("opened document has no pages"@)
        } else {
            limit_verdict(Limit::PageCount, opened.page_count as nat, MAX_PAGE_COUNT as nat)
        },
        ResponseResult::PageMetadata(metadata) => then(
            page_index_verdict(metadata.page_index),
            if metadata.width_millipoints == 0 || metadata.height_millipoints == 0 {
                Verdict::Invalid("page dimensions must be nonzero"@)
            } else {
                Verdict::Valid
            },
        ),
        ResponseResult::PageRendered(rendered) => rendered_page_verdict(rendered),
        ResponseResult::DocumentClosed => Verdict::Valid,
        ResponseResult::ShuttingDown => Verdict::Valid,
        ResponseResult::Error(error) => if error.message@.len() == 0 {
            Verdict::Invalid("error message is empty"@)
        } else {
            limit_verdict(
                Limit::ErrorMessageBytes,
                utf8_len(error.message@),
                MAX_ERROR_MESSAGE_BYTES as nat,
            )
        },
    }
}

/// The verdict on a whole response: version first, then its result.
pub open spec fn response_verdict(response: Response) -> Verdict {
    then(version_verdict(response.version), result_verdict(response.result))
}

impl Request {
    /// A request in the current protocol version.
    pub fn new(request_id: u64, command: RequestCommand) -> (r: Self)
        ensures
            r.version == PROTOCOL_VERSION,
            r.request_id == request_id,
            r.command == command,
    {
        Request { version: PROTOCOL_VERSION, request_id, command }
    }

    /// Checks the protocol version and every command-specific limit.
    pub fn validate(&self) -> (r: Result<(), ProtocolError>)
        ensures
            reports(r, request_verdict(*self)),
    {
        match validate_version(self.version) {
            Ok(()) => {},
            Err(e) => return Err(e),
        }
        match &self.command {
            RequestCommand::OpenDocument(request) => {
                if request.document.len() == 0 {
                    return Err(ProtocolError::InvalidMessage("document is empty"));
                }
                check_limit(Limit::DocumentBytes, request.document.len(), MAX_DOCUMENT_BYTES)
            },
            RequestCommand::PageMetadata(request) => validate_page_index(request.page_index),
            RequestCommand::RenderPage(request) => {
                match validate_page_index(request.page_index) {
                    Ok(()) => {},
                    Err(e) => return Err(e),
                }
                validate_dimensions(request.width, request.height)
            },
            RequestCommand::CloseDocument => Ok(()),
            RequestCommand::Shutdown => Ok(()),
        }
    }
}

impl Response {
    /// A response in the current protocol version.
    pub fn new(request_id: u64, result: ResponseResult) -> (r: Self)
        ensures
            r.version == PROTOCOL_VERSION,
            r.request_id == request_id,
            r.result == result,
    {
        Response { version: PROTOCOL_VERSION, request_id, result }
    }

    /// Checks the protocol version and every result-specific limit and
    /// invariant.
    pub fn validate(&self) -> (r: Result<(), ProtocolError>)
        ensures
            reports(r, response_verdict(*self)),
    {
        match validate_version(self.version) {
            Ok(()) => {},
            Err(e) => return Err(e),
        }
        validate_result(&self.result)
    }
}

/// Checks every result-specific limit and invariant.
pub fn validate_result(result: &ResponseResult) -> (r: Result<(), ProtocolError>)
    ensures
        reports(r, result_verdict(*result)),
{
    match result {
        ResponseResult::DocumentOpened(opened) => {
            if opened.page_count == 0 {
                return Err(ProtocolError::InvalidMessage("opened document has no pages"));
            }
            check_limit(Limit::PageCount, opened.page_count as usize, MAX_PAGE_COUNT as usize)
        },
        ResponseResult::PageMetadata(metadata) => {
            match validate_page_index(metadata.page_index) {
                Ok(()) => {},
                Err(e) => return Err(e),
            }
            if metadata.width_millipoints == 0 || metadata.height_millipoints == 0 {
                return Err(ProtocolError::InvalidMessage("page dimensions must be nonzero"));
            }
            Ok(())
        },
        ResponseResult::PageRendered(rendered) => validate_rendered_page(rendered),
        ResponseResult::DocumentClosed => Ok(()),
        ResponseResult::ShuttingDown => Ok(()),
        ResponseResult::Error(error) => {
            if error.message.as_str().is_empty() {
                return Err(ProtocolError::InvalidMessage("error message is empty"));
            }
            check_limit(
                Limit::ErrorMessageBytes,
                error.message.as_str().as_bytes().len(),
                MAX_ERROR_MESSAGE_BYTES,
            )
        },
    }
}

fn validate_version(version: u16) -> (r: Result<(), ProtocolError>)
    ensures
        reports(r, version_verdict(version)),
{
    if version == PROTOCOL_VERSION {
        Ok(())
    } else {
        Err(ProtocolError::UnsupportedVersion { actual: version })
    }
}

fn validate_page_index(page_index: u32) -> (r: Result<(), ProtocolError>)
    ensures
        reports(r, page_index_verdict(page_index)),
{
    check_limit(Limit::PageIndex, page_index as usize, (MAX_PAGE_COUNT - 1) as usize)
}

fn validate_dimensions(width: u32, height: u32) -> (r: Result<(), ProtocolError>)
    ensures
        reports(r, dimensions_verdict(width, height)),
{
    if width == 0 || height == 0 {
        return Err(ProtocolError::InvalidMessage("render dimensions must be nonzero"));
    }
    match check_limit(Limit::RenderDimension, width as usize, MAX_RENDER_DIMENSION as usize) {
        Ok(()) => {},
        Err(e) => return Err(e),
    }
    match check_limit(Limit::RenderDimension, height as usize, MAX_RENDER_DIMENSION as usize) {
        Ok(()) => {},
        Err(e) => return Err(e),
    }
    assert(width as int * height as int <= 8192 * 8192) by (nonlinear_arith)
        requires
            width <= 8192,
            height <= 8192,
    ;
    let pixels = match (width as usize).checked_mul(height as usize) {
        Some(pixels) => pixels,
        None => {
            return Err(
                ProtocolError::LimitExceeded {
                    limit: Limit::RenderPixels,
                    actual: usize::MAX,
                    maximum: MAX_RENDER_PIXELS,
                },
            )
        },
    };
    check_limit(Limit::RenderPixels, pixels, MAX_RENDER_PIXELS)
}

fn validate_rendered_page(rendered: &RenderedPage) -> (r: Result<(), ProtocolError>)
    ensures
        reports(r, rendered_page_verdict(*rendered)),
{
    match validate_page_index(rendered.page_index) {
        Ok(()) => {},
        Err(e) => return Err(e),
    }
    match validate_dimensions(rendered.width, rendered.height) {
        Ok(()) => {},
        Err(e) => return Err(e),
    }
    let expected_stride = match rendered.width.checked_mul(4) {
        Some(stride) => stride,
        None => return Err(ProtocolError::InvalidMessage("render stride overflows")),
    };
    if rendered.stride != expected_stride {
        return Err(ProtocolError::InvalidMessage("render stride is invalid"));
    }
    assert(rendered.stride as int * rendered.height as int <= 32768 * 8192) by (nonlinear_arith)
        requires
            rendered.stride <= 32768,
            rendered.height <= 8192,
    ;
    let expected_bytes = match (rendered.stride as usize).checked_mul(rendered.height as usize) {
        Some(bytes) => bytes,
        None => {
            return Err(
                ProtocolError::LimitExceeded {
                    limit: Limit::RenderOutputBytes,
                    actual: usize::MAX,
                    maximum: MAX_RENDER_OUTPUT_BYTES,
                },
            )
        },
    };
    match check_limit(Limit::RenderOutputBytes, expected_bytes, MAX_RENDER_OUTPUT_BYTES) {
        Ok(()) => {},
        Err(e) => return Err(e),
    }
    if rendered.pixels.len() != expected_bytes {
        return Err(
            ProtocolError::InvalidMessage("render output length does not match dimensions"),
        );
    }
    Ok(())
}

fn check_limit(limit: Limit, actual: usize, maximum: usize) -> (r: Result<(), ProtocolError>)
    ensures
        reports(r, limit_verdict(limit, actual as nat, maximum as nat)),
{
    if actual <= maximum {
        Ok(())
    } else {
        Err(ProtocolError::LimitExceeded { limit, actual, maximum })
    }
}

// ---------------------------------------------------------------------------
// Framing
// ---------------------------------------------------------------------------

/// The frame carrying `payload` fits the `maximum` and the 32-bit prefix.
pub open spec fn payload_fits(len: nat, maximum: nat) -> bool {
    len <= maximum && len <= u32::MAX
}

/// Writes `payload` as one frame: its little-endian length, the payload,
/// then a flush. Oversize is refused before anything is written.
fn write_frame<W: std::io::Write>(writer: &mut W, payload: &[u8], maximum: usize) -> (r: Result<
    (),
    ProtocolError,
>)
    ensures
        !payload_fits(payload@.len(), maximum as nat) <==> r matches Err(
            ProtocolError::LimitExceeded { .. },
        ),
        r matches Err(ProtocolError::LimitExceeded { limit, actual, maximum: m }) ==> limit
            == Limit::FrameBytes && actual == payload@.len() && m == maximum,
        r is Err ==> r matches Err(ProtocolError::LimitExceeded { .. }) || r matches Err(
            ProtocolError::Io(_),
        ),
        r matches Err(ProtocolError::LimitExceeded { .. }) ==> *final(writer) == *old(writer),
{
    match check_limit(Limit::FrameBytes, payload.len(), maximum) {
        Ok(()) => {},
        Err(e) => return Err(e),
    }
    if payload.len() > u32::MAX as usize {
        return Err(
            ProtocolError::LimitExceeded {
                limit: Limit::FrameBytes,
                actual: payload.len(),
                maximum,
            },
        );
    }
    let prefix = u32_to_le(payload.len() as u32);
    match write_all(writer, &prefix) {
        Ok(()) => {},
        Err(e) => return Err(ProtocolError::Io(e)),
    }
    match write_all(writer, payload) {
        Ok(()) => {},
        Err(e) => return Err(ProtocolError::Io(e)),
    }
    match flush(writer) {
        Ok(()) => Ok(()),
        Err(e) => Err(ProtocolError::Io(e)),
    }
}

/// Validates `request` and writes `payload`, its encoding, as one bounded
/// request frame. Nothing is written when either check fails.
pub fn write_request<W: std::io::Write>(writer: &mut W, request: &Request, payload: &[u8]) -> (r:
    Result<(), ProtocolError>)
    ensures
        !(request_verdict(*request) is Valid) ==> reports(r, request_verdict(*request)),
        request_verdict(*request) is Valid && payload@.len() > MAX_REQUEST_FRAME_BYTES ==> reports(
            r,
            Verdict::LimitExceeded(
                Limit::FrameBytes,
                payload@.len(),
                MAX_REQUEST_FRAME_BYTES as nat,
            ),
        ),
        r is Ok ==> request_verdict(*request) is Valid && payload_fits(payload@.len(), MAX_REQUEST_FRAME_BYTES as nat),
        r is Err ==> (!(request_verdict(*request) is Valid) && reports(r, request_verdict(*request))) || (request_verdict(*request) is Valid
            && !payload_fits(payload@.len(), MAX_REQUEST_FRAME_BYTES as nat) && r matches Err(
            ProtocolError::LimitExceeded { limit: Limit::FrameBytes, .. },
        )) || r matches Err(ProtocolError::Io(_)),
        (r is Err && !(r matches Err(ProtocolError::Io(_)))) ==> *final(writer) == *old(writer),
{
    match request.validate() {
        Ok(()) => {},
        Err(e) => return Err(e),
    }
    write_frame(writer, payload, MAX_REQUEST_FRAME_BYTES)
}

/// Validates `response` and writes `payload`, its encoding, as one bounded
/// response frame. Nothing is written when either check fails.
pub fn write_response<W: std::io::Write>(
    writer: &mut W,
    response: &Response,
    payload: &[u8],
) -> (r: Result<(), ProtocolError>)
    ensures
        !(response_verdict(*response) is Valid) ==> reports(r, response_verdict(*response)),
        response_verdict(*response) is Valid && payload@.len() > MAX_RESPONSE_FRAME_BYTES
            ==> reports(
            r,
            Verdict::LimitExceeded(
                Limit::FrameBytes,
                payload@.len(),
                MAX_RESPONSE_FRAME_BYTES as nat,
            ),
        ),
        r is Ok ==> response_verdict(*response) is Valid && payload_fits(payload@.len(), MAX_RESPONSE_FRAME_BYTES as nat),
        r is Err ==> (!(response_verdict(*response) is Valid) && reports(r, response_verdict(*response))) || (response_verdict(*response) is Valid
            && !payload_fits(payload@.len(), MAX_RESPONSE_FRAME_BYTES as nat) && r matches Err(
            ProtocolError::LimitExceeded { limit: Limit::FrameBytes, .. },
        )) || r matches Err(ProtocolError::Io(_)),
        (r is Err && !(r matches Err(ProtocolError::Io(_)))) ==> *final(writer) == *old(writer),
{
    match response.validate() {
        Ok(()) => {},
        Err(e) => return Err(e),
    }
    write_frame(writer, payload, MAX_RESPONSE_FRAME_BYTES)
}

/// What one read of a length prefix means: `Ok(Some(n))` when `n` of its
/// bytes are in place now, `Ok(None)` when the input ended cleanly before
/// it, `Truncated` when the input ended inside it, and the read's own
/// failure as I/O.
pub fn prefix_progress(step: FillStep) -> (r: Result<Option<usize>, ProtocolError>)
    ensures
        match step {
            FillStep::Filled(n) => r == Ok::<Option<usize>, ProtocolError>(Some(n)),
            FillStep::EndBeforeField => r == Ok::<Option<usize>, ProtocolError>(None),
            FillStep::EndInsideField => r matches Err(ProtocolError::Truncated),
            FillStep::Failed(e) => r == Err::<Option<usize>, ProtocolError>(ProtocolError::Io(e)),
        },
{
    match step {
        FillStep::Filled(n) => Ok(Some(n)),
        FillStep::EndBeforeField => Ok(None),
        FillStep::EndInsideField => Err(ProtocolError::Truncated),
        FillStep::Failed(e) => Err(ProtocolError::Io(e)),
    }
}

/// Reads one frame's little-endian length prefix: `None` at a clean end of
/// input, `Truncated` when the input ends inside the prefix.
fn read_length<R: std::io::Read>(reader: &mut R) -> (r: Result<Option<usize>, ProtocolError>)
    ensures
        r matches Ok(Some(n)) ==> n <= u32::MAX,
        r matches Err(e) ==> e is Truncated || e is Io,
{
    let mut prefix = [0u8; 4];
    let mut read: usize = 0;
    while read < 4
        invariant
            read <= 4,
            prefix@.len() == 4,
        decreases 4 - read,
    {
        match prefix_progress(fill_step(read, 4, read_retrying(reader, &mut prefix, read))) {
            Ok(Some(count)) => read = count,
            Ok(None) => return Ok(None),
            Err(error) => return Err(error),
        }
    }
    Ok(Some(u32_from_le(prefix) as usize))
}

/// An unexpected end of input inside a payload is a truncated frame.
fn map_truncation(error: std::io::Error) -> (r: ProtocolError)
    ensures
        r is Truncated || r == ProtocolError::Io(error),
{
    if is_unexpected_eof(&error) {
        ProtocolError::Truncated
    } else {
        ProtocolError::Io(error)
    }
}

/// Reads one frame's payload, or `None` at a clean end of input. A length
/// above `maximum` is refused before any payload is allocated or read.
///
/// Which outcome comes depends on the bytes the reader delivers, which the
/// contract cannot name. Each read of the prefix is judged by `fill_step`
/// and `prefix_progress`, the length by `check_limit` and a short payload by
/// `map_truncation`; this function returns what they decide.
pub fn read_payload<R: std::io::Read>(reader: &mut R, maximum: usize) -> (r: Result<
    Option<Vec<u8>>,
    ProtocolError,
>)
    ensures
        r matches Ok(Some(payload)) ==> payload@.len() <= maximum,
        r matches Err(ProtocolError::LimitExceeded { limit, actual, maximum: m }) ==> limit
            == Limit::FrameBytes && actual > maximum && m == maximum,
        r matches Err(e) ==> e is Truncated || e is Io || e matches ProtocolError::LimitExceeded {
            limit: Limit::FrameBytes,
            ..
        },
{
    let length = match read_length(reader) {
        Ok(Some(length)) => length,
        Ok(None) => return Ok(None),
        Err(e) => return Err(e),
    };
    match check_limit(Limit::FrameBytes, length, maximum) {
        Ok(()) => {},
        Err(e) => return Err(e),
    }
    let mut payload = vec![0u8; length];
    match read_exact(reader, payload.as_mut_slice()) {
        Ok(()) => Ok(Some(payload)),
        Err(e) => Err(map_truncation(e)),
    }
}

} // verus!
