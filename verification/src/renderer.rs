//! The strict request loop of the isolated PDF renderer: document
//! sequencing, mapping of engine failures to structured errors, and refusal
//! of engine output that breaks the protocol's limits.

use vstd::prelude::*;

use crate::renderer_protocol::{
    result_verdict, validate_result, DocumentOpened, PageMetadata, RenderPageRequest,
    RenderedPage, RendererError, RendererErrorCode, Request, RequestCommand, Response,
    ResponseResult, Verdict,
};

verus! {

/// Message of an open request while the distribution is missing.
pub const NOT_CONFIGURED: &'static str = "renderer distribution is not configured";

/// Message when the engine's answer breaks the protocol.
pub const INVALID_BACKEND_OUTPUT: &'static str = "renderer backend returned invalid output";

/// Failures a rendering engine may report without exposing its diagnostics.
#[derive(Clone, Copy, Debug, Eq, PartialEq)]
pub enum EngineError {
    InvalidPdf,
    EncryptedPdf,
    PageOutOfRange,
    RenderFailed,
    Internal(&'static str),
}

/// The engine boundary: document parsing and rasterization.
pub trait RenderEngine {
    /// Opens one document.
    fn open_document(&mut self, document: &[u8]) -> Result<DocumentOpened, EngineError>;

    /// Reads metadata for one page of the open document.
    fn page_metadata(&mut self, page_index: u32) -> Result<PageMetadata, EngineError>;

    /// Renders one page of the open document.
    fn render_page(&mut self, request: RenderPageRequest) -> Result<RenderedPage, EngineError>;

    /// Closes the open document and releases its resources.
    fn close_document(&mut self) -> Result<(), EngineError>;
}

/// The production engine until a pinned PDFium distribution is packaged: it
/// refuses every document without parsing it.
#[derive(Debug, Default)]
pub struct DistributionEngine;

impl RenderEngine for DistributionEngine {
    fn open_document(&mut self, _document: &[u8]) -> (r: Result<DocumentOpened, EngineError>)
        ensures
            r == Err::<DocumentOpened, EngineError>(EngineError::Internal(NOT_CONFIGURED)),
    {
        Err(EngineError::Internal(NOT_CONFIGURED))
    }

    fn page_metadata(&mut self, _page_index: u32) -> (r: Result<PageMetadata, EngineError>)
        ensures
            r == Err::<PageMetadata, EngineError>(EngineError::Internal(NOT_CONFIGURED)),
    {
        Err(EngineError::Internal(NOT_CONFIGURED))
    }

    fn render_page(&mut self, _request: RenderPageRequest) -> (r: Result<RenderedPage, EngineError>)
        ensures
            r == Err::<RenderedPage, EngineError>(EngineError::Internal(NOT_CONFIGURED)),
    {
        Err(EngineError::Internal(NOT_CONFIGURED))
    }

    fn close_document(&mut self) -> (r: Result<(), EngineError>)
        ensures
            r == Ok::<(), EngineError>(()),
    {
        Ok(())
    }
}

/// `r` is a renderer error with `code` and `message`.
pub open spec fn is_renderer_error(r: ResponseResult, code: RendererErrorCode, message: Seq<char>) -> bool {
    r matches ResponseResult::Error(e) && e.code == code && e.message@ == message
}

/// The structured error an engine failure becomes.
pub open spec fn engine_failure_is(r: ResponseResult, error: EngineError) -> bool {
    match error {
        EngineError::InvalidPdf => is_renderer_error(
            r,
            RendererErrorCode::InvalidPdf,
            "PDF structure is invalid"@,
        ),
        EngineError::EncryptedPdf => is_renderer_error(
            r,
            RendererErrorCode::EncryptedPdf,
            "encrypted PDFs are not supported"@,
        ),
        EngineError::PageOutOfRange => is_renderer_error(
            r,
            RendererErrorCode::PageOutOfRange,
            "page index is out of range"@,
        ),
        EngineError::RenderFailed => is_renderer_error(
            r,
            RendererErrorCode::RenderFailed,
            "page rendering failed"@,
        ),
        EngineError::Internal(message) => is_renderer_error(
            r,
            RendererErrorCode::Internal,
            message@,
        ),
    }
}

/// `r` is the answer to a broken engine output.
pub open spec fn is_invalid_backend_output(r: ResponseResult) -> bool {
    is_renderer_error(r, RendererErrorCode::Internal, INVALID_BACKEND_OUTPUT@)
}

/// `r` is the answer to a command that needs an open document.
pub open spec fn is_document_not_open(r: ResponseResult) -> bool {
    is_renderer_error(r, RendererErrorCode::DocumentNotOpen, "no document is open"@)
}

/// `r` passes the response checks.
pub open spec fn result_is_valid(r: ResponseResult) -> bool {
    result_verdict(r) is Valid
}

/// A structured renderer error.
pub fn renderer_error(code: RendererErrorCode, message: &'static str) -> (r: ResponseResult)
    ensures
        is_renderer_error(r, code, message@),
{
    ResponseResult::Error(RendererError { code, message: message.to_owned() })
}

/// The error for a command that needs an open document.
pub fn document_not_open() -> (r: ResponseResult)
    ensures
        is_document_not_open(r),
{
    renderer_error(RendererErrorCode::DocumentNotOpen, "no document is open")
}

/// The structured error for an engine failure.
pub fn engine_error(error: EngineError) -> (r: ResponseResult)
    ensures
        engine_failure_is(r, error),
{
    match error {
        EngineError::InvalidPdf => renderer_error(
            RendererErrorCode::InvalidPdf,
            "PDF structure is invalid",
        ),
        EngineError::EncryptedPdf => renderer_error(
            RendererErrorCode::EncryptedPdf,
            "encrypted PDFs are not supported",
        ),
        EngineError::PageOutOfRange => renderer_error(
            RendererErrorCode::PageOutOfRange,
            "page index is out of range",
        ),
        EngineError::RenderFailed => renderer_error(
            RendererErrorCode::RenderFailed,
            "page rendering failed",
        ),
        EngineError::Internal(message) => renderer_error(RendererErrorCode::Internal, message),
    }
}

/// Whether an engine result passes the response checks.
pub fn valid_result(result: &ResponseResult) -> (r: bool)
    ensures
        r == result_is_valid(*result),
{
    validate_result(result).is_ok()
}

/// An engine result that passes the response checks, or the broken-output
/// error in its place.
pub fn checked_result(result: ResponseResult) -> (r: ResponseResult)
    ensures
        result_is_valid(result) ==> r == result,
        !result_is_valid(result) ==> is_invalid_backend_output(r),
{
    if valid_result(&result) {
        result
    } else {
        renderer_error(RendererErrorCode::Internal, INVALID_BACKEND_OUTPUT)
    }
}

/// Whether a document is open.
#[derive(Clone, Copy, Debug, Eq, PartialEq, Structural)]
pub enum DocumentState {
    Closed,
    Open,
}

/// The answer to one request and whether the loop ends after it.
pub struct Handled {
    pub response: Response,
    pub shutdown: bool,
}

/// Renderer state around one engine.
pub struct Renderer<E> {
    engine: E,
    state: DocumentState,
}

/// An engine answer for `command` given the document state before it.
pub open spec fn command_result(was_open: bool, command: RequestCommand, r: ResponseResult) -> bool {
    match command {
        RequestCommand::OpenDocument(_) => if was_open {
            is_renderer_error(r, RendererErrorCode::InvalidRequest, "a document is already open"@)
        } else {
            (r is DocumentOpened && result_is_valid(r)) || is_invalid_backend_output(r) || exists|
                e: EngineError,
            | engine_failure_is(r, e)
        },
        RequestCommand::PageMetadata(metadata) => if !was_open {
            is_document_not_open(r)
        } else {
            (r matches ResponseResult::PageMetadata(m) && m.page_index == metadata.page_index
                && result_is_valid(r)) || is_invalid_backend_output(r) || exists|e: EngineError|
                engine_failure_is(r, e)
        },
        RequestCommand::RenderPage(render) => if !was_open {
            is_document_not_open(r)
        } else {
            (r matches ResponseResult::PageRendered(p) && p.page_index == render.page_index
                && p.width == render.width && p.height == render.height && result_is_valid(r))
                || is_invalid_backend_output(r) || exists|e: EngineError| engine_failure_is(r, e)
        },
        RequestCommand::CloseDocument => if !was_open {
            is_document_not_open(r)
        } else {
            r is DocumentClosed || exists|e: EngineError| engine_failure_is(r, e)
        },
        RequestCommand::Shutdown => r is ShuttingDown || (was_open && exists|e: EngineError|
            engine_failure_is(r, e)),
    }
}

/// What the request loop observed in one round.
pub enum ServeEvent {
    /// The input ended cleanly before a request.
    InputEnded,
    /// A request could not be read.
    InputFailed,
    /// The answer was written; `shutdown` when the request asked to stop.
    Answered { shutdown: bool },
    /// The answer could not be written.
    AnswerFailed,
}

/// Whether the request loop goes on.
#[derive(Clone, Copy, Debug, Eq, PartialEq)]
pub enum ServeStep {
    Continue,
    Stop,
}

impl<E: RenderEngine> Renderer<E> {
    /// Whether a document is open.
    pub closed spec fn is_open(self) -> bool {
        self.state is Open
    }

    /// A renderer with no open document.
    pub fn new(engine: E) -> (r: Self)
        ensures
            !r.is_open(),
    {
        Renderer { engine, state: DocumentState::Closed }
    }

    /// Answers one request; the loop ends after a shutdown request.
    pub fn handle(&mut self, request: Request) -> (r: Handled)
        ensures
            r.response.request_id == request.request_id,
            r.response.version == crate::renderer_protocol::PROTOCOL_VERSION,
            r.shutdown == request.command is Shutdown,
            command_result(old(self).is_open(), request.command, r.response.result),
            r.response.result is DocumentOpened ==> final(self).is_open(),
            r.response.result is DocumentClosed ==> !final(self).is_open(),
            r.response.result is ShuttingDown ==> !final(self).is_open(),
            request.command is PageMetadata ==> final(self).is_open() == old(self).is_open(),
            request.command is RenderPage ==> final(self).is_open() == old(self).is_open(),
            request.command is OpenDocument && !(r.response.result is DocumentOpened) ==> final(self).is_open() == old(self).is_open(),
    {
        let request_id = request.request_id;
        let ghost command = request.command;
        let (result, shutdown) = match request.command {
            RequestCommand::OpenDocument(open) => (self.open(open.document.as_slice()), false),
            RequestCommand::PageMetadata(metadata) => (self.metadata(metadata.page_index), false),
            RequestCommand::RenderPage(render) => (self.render(render), false),
            RequestCommand::CloseDocument => (self.close(), false),
            RequestCommand::Shutdown => (self.shutdown(), true),
        };
        Handled { response: Response::new(request_id, result), shutdown }
    }

    /// Opens a document unless one is already open.
    pub fn open(&mut self, document: &[u8]) -> (r: ResponseResult)
        ensures
            old(self).is_open() ==> is_renderer_error(
                r,
                RendererErrorCode::InvalidRequest,
                "a document is already open"@,
            ) && final(self).is_open(),
            !old(self).is_open() && r is DocumentOpened ==> result_is_valid(r)
                && final(self).is_open(),
            !old(self).is_open() && !(r is DocumentOpened) ==> !final(self).is_open()
                && (is_invalid_backend_output(r) || exists|e: EngineError| engine_failure_is(r, e)),
    {
        if self.state == DocumentState::Open {
            return renderer_error(RendererErrorCode::InvalidRequest, "a document is already open");
        }
        match self.engine.open_document(document) {
            Ok(opened) => {
                let result = ResponseResult::DocumentOpened(opened);
                if valid_result(&result) {
                    self.state = DocumentState::Open;
                    result
                } else {
                    let _ = self.engine.close_document();
                    renderer_error(RendererErrorCode::Internal, INVALID_BACKEND_OUTPUT)
                }
            },
            Err(error) => engine_error(error),
        }
    }

    /// Reads one page's metadata from the open document.
    pub fn metadata(&mut self, page_index: u32) -> (r: ResponseResult)
        ensures
            final(self).is_open() == old(self).is_open(),
            command_result(
                old(self).is_open(),
                RequestCommand::PageMetadata(
                    crate::renderer_protocol::PageMetadataRequest { page_index },
                ),
                r,
            ),
    {
        if self.state == DocumentState::Closed {
            return document_not_open();
        }
        match self.engine.page_metadata(page_index) {
            Ok(metadata) => if metadata.page_index == page_index {
                checked_result(ResponseResult::PageMetadata(metadata))
            } else {
                renderer_error(RendererErrorCode::Internal, INVALID_BACKEND_OUTPUT)
            },
            Err(error) => engine_error(error),
        }
    }

    /// Renders one page of the open document at the requested size.
    pub fn render(&mut self, request: RenderPageRequest) -> (r: ResponseResult)
        ensures
            final(self).is_open() == old(self).is_open(),
            command_result(old(self).is_open(), RequestCommand::RenderPage(request), r),
    {
        if self.state == DocumentState::Closed {
            return document_not_open();
        }
        match self.engine.render_page(request) {
            Ok(rendered) => if rendered.page_index == request.page_index && rendered.width
                == request.width && rendered.height == request.height {
                checked_result(ResponseResult::PageRendered(rendered))
            } else {
                renderer_error(RendererErrorCode::Internal, INVALID_BACKEND_OUTPUT)
            },
            Err(error) => engine_error(error),
        }
    }

    /// Closes the open document.
    pub fn close(&mut self) -> (r: ResponseResult)
        ensures
            command_result(old(self).is_open(), RequestCommand::CloseDocument, r),
            r is DocumentClosed ==> !final(self).is_open(),
            !(r is DocumentClosed) ==> final(self).is_open() == old(self).is_open(),
    {
        if self.state == DocumentState::Closed {
            return document_not_open();
        }
        match self.engine.close_document() {
            Ok(()) => {
                self.state = DocumentState::Closed;
                ResponseResult::DocumentClosed
            },
            Err(error) => engine_error(error),
        }
    }

    /// Closes any open document and acknowledges the shutdown.
    pub fn shutdown(&mut self) -> (r: ResponseResult)
        ensures
            command_result(old(self).is_open(), RequestCommand::Shutdown, r),
            r is ShuttingDown ==> !final(self).is_open(),
            !(r is ShuttingDown) ==> final(self).is_open() == old(self).is_open(),
    {
        if self.state == DocumentState::Open {
            match self.engine.close_document() {
                Ok(()) => self.state = DocumentState::Closed,
                Err(error) => return engine_error(error),
            }
        }
        ResponseResult::ShuttingDown
    }

    /// One decision of the request loop: it goes on only after an answer to
    /// anything but a shutdown was written; it stops at the end or failure of
    /// its input, when an answer cannot be written and after a shutdown, and
    /// whenever it stops any open document is closed.
    pub fn after_round(&mut self, event: ServeEvent) -> (r: ServeStep)
        ensures
            (event matches ServeEvent::Answered { shutdown } && !shutdown) ==> r == ServeStep::Continue
                && final(self).is_open() == old(self).is_open(),
            !(event matches ServeEvent::Answered { shutdown } && !shutdown) ==> r == ServeStep::Stop
                && !final(self).is_open(),
    {
        match event {
            ServeEvent::Answered { shutdown } => if !shutdown {
                return ServeStep::Continue;
            },
            _ => {},
        }
        self.cleanup();
        ServeStep::Stop
    }

    /// Closes any open document, ignoring the engine's answer; the loop calls
    /// this whenever it stops.
    pub fn cleanup(&mut self)
        ensures
            !final(self).is_open(),
    {
        if self.state == DocumentState::Open {
            let _ = self.engine.close_document();
            self.state = DocumentState::Closed;
        }
    }
}

} // verus!
