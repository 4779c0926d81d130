//! What each end of a host-to-desktop connection decides while a request is
//! open. The caller owns the connection, the threads and the clocks: it
//! turns what it observed into an event, performs the step it gets back, and
//! reports the next event.

use vstd::prelude::*;

use crate::local_ipc::{DesktopCommand, HostCommand, IpcRequest};
use crate::protocol::{is_error_for, ErrorCode, TerminalResponse};
use crate::request_machine::{
    busy_message, disconnect_message, signing_started, timeout_message, ClearRequest,
};
use crate::review_session::{DesktopSession, RequestData, SessionView};
use crate::text::str_eq;
use crate::validation::ValidatedRequestParts;

verus! {

/// What the desktop does after the first command of a connection.
pub enum Opening {
    /// The request was accepted: bring the window forward and wait for its
    /// outcome.
    Accepted { request_id: String },
    /// Send this response to the host and close.
    Answer(TerminalResponse),
    /// Close without an answer.
    Close,
}

/// Handles the first command the host sends on a connection: a request is
/// accepted or answered `BUSY`; a disconnect ends the named request if the
/// window shows it and answers with the result.
pub fn open_connection(session: &mut DesktopSession, command: HostCommand) -> (r: Opening)
    requires
        old(session)@.wf(),
    ensures
        final(session)@.wf(),
        match command {
            HostCommand::Request(request) => if old(session)@.ui is None {
                &&& r matches Opening::Accepted { request_id } && request_id@ == request.request_id@
                &&& final(session)@ == old(session)@.accepted(request)
                &&& final(session).active_data() == Some(RequestData(request))
                &&& final(session).erased_data() == old(session).erased_data()
            } else {
                &&& r matches Opening::Answer(response) && is_error_for(
                    response,
                    Some(request.request_id@),
                    ErrorCode::Busy,
                    busy_message(),
                )
                &&& final(session)@ == old(session)@
                &&& final(session).active_data() == old(session).active_data()
                &&& final(session).erased_data() matches Some(d) && d.cleared()
            },
            HostCommand::Disconnect { request_id } => ends_on_disconnect(
                old(session)@,
                final(session)@,
                request_id@,
                r is Close,
            ) && (r is Close ==> final(session).keeps_data(*old(session))) && (!(r is Close)
                ==> final(session).erased_active()) && (r is Close || (r matches Opening::Answer(response) && is_error_for(
                response,
                Some(request_id@),
                ErrorCode::ExtensionDisconnected,
                disconnect_message(),
            ))),
        },
{
    match command {
        HostCommand::Request(request) => {
            let request_id = request.request_id.clone();
            match session.accept(request) {
                Ok(()) => Opening::Accepted { request_id },
                Err(busy) => Opening::Answer(*busy),
            }
        },
        HostCommand::Disconnect { request_id } => match session.disconnect(request_id.as_str()) {
            Ok(response) => Opening::Answer(response),
            Err(_) => Opening::Close,
        },
    }
}

/// A disconnect for `request_id` ended the shown request exactly when it
/// was shown and not yet signing; otherwise nothing changed.
pub open spec fn ends_on_disconnect(
    before: SessionView,
    after: SessionView,
    request_id: Seq<char>,
    kept: bool,
) -> bool {
    &&& !kept <==> before.shows(request_id) && !signing_started(before.machine.state())
    &&& !kept ==> after == before.finished()
    &&& kept ==> after == before
}

/// What the desktop observed while it waits for the window's outcome.
pub enum WaitEvent {
    /// The window produced the request's terminal response.
    Outcome(TerminalResponse),
    /// The window's side will never produce one.
    OutcomeLost,
    /// The host sent a command.
    Host(HostCommand),
    /// The host closed its side or its stream failed.
    HostGone,
    /// The request deadline passed.
    DeadlinePassed,
}

/// What the desktop does next.
pub enum WaitStep {
    /// Keep waiting.
    Continue,
    /// Send this response to the host and close.
    Deliver(TerminalResponse),
    /// Tell the window its request went away, then close.
    Invalidate,
    /// Tell the window its request went away, send this response to the host
    /// and close.
    InvalidateAndDeliver(TerminalResponse),
    /// Close.
    Close,
}

/// The host no longer wants `request_id`: it said so, or it went away.
pub open spec fn host_left(event: WaitEvent, request_id: Seq<char>) -> bool {
    match event {
        WaitEvent::Host(HostCommand::Disconnect { request_id: id }) => id@ == request_id,
        WaitEvent::HostGone => true,
        _ => false,
    }
}

/// One step of the desktop's wait for the outcome of `request_id`.
pub fn on_wait_event(session: &mut DesktopSession, request_id: &str, event: WaitEvent) -> (r:
    WaitStep)
    requires
        old(session)@.wf(),
    ensures
        final(session)@.wf(),
        event matches WaitEvent::Outcome(response) ==> (r == WaitStep::Deliver(response)
            && final(session)@ == old(session)@),
        (r is Invalidate || r is InvalidateAndDeliver) ==> final(session).erased_active(),
        !(r is Invalidate || r is InvalidateAndDeliver) ==> final(session).keeps_data(
            *old(session),
        ),
        event is OutcomeLost ==> r is Close && final(session)@ == old(session)@,
        host_left(event, request_id@) ==> (r is Invalidate || r is Close) && ends_on_disconnect(
            old(session)@,
            final(session)@,
            request_id@,
            r is Close,
        ),
        event is Host && !host_left(event, request_id@) ==> r is Continue && final(session)@ == old(
            session,
        )@,
        event is DeadlinePassed ==> {
            &&& (r is InvalidateAndDeliver || r is Close)
            &&& r is InvalidateAndDeliver <==> old(session)@.shows(request_id@) && !signing_started(
                old(session)@.machine.state(),
            )
            &&& r matches WaitStep::InvalidateAndDeliver(response) ==> is_error_for(
                response,
                Some(request_id@),
                ErrorCode::RequestTimeout,
                timeout_message(),
            ) && final(session)@ == old(session)@.finished()
            &&& r is Close ==> final(session)@ == old(session)@
        },
{
    match event {
        WaitEvent::Outcome(response) => WaitStep::Deliver(response),
        WaitEvent::OutcomeLost => WaitStep::Close,
        WaitEvent::Host(command) => {
            let leaving = match &command {
                HostCommand::Disconnect { request_id: id } => str_eq(id.as_str(), request_id),
                HostCommand::Request(_) => false,
            };
            if leaving {
                disconnect_step(session, request_id)
            } else {
                WaitStep::Continue
            }
        },
        WaitEvent::HostGone => disconnect_step(session, request_id),
        WaitEvent::DeadlinePassed => match session.timeout(request_id) {
            Ok(response) => WaitStep::InvalidateAndDeliver(response),
            Err(_) => WaitStep::Close,
        },
    }
}

fn disconnect_step(session: &mut DesktopSession, request_id: &str) -> (r: WaitStep)
    requires
        old(session)@.wf(),
    ensures
        final(session)@.wf(),
        r is Invalidate || r is Close,
        ends_on_disconnect(old(session)@, final(session)@, request_id@, r is Close),
        r is Invalidate ==> final(session).erased_active(),
        r is Close ==> final(session).keeps_data(*old(session)),
{
    match session.disconnect(request_id) {
        Ok(_) => WaitStep::Invalidate,
        Err(_) => WaitStep::Close,
    }
}

/// The request the host hands to the desktop: the validated fields, moved.
pub fn desktop_request(parts: ValidatedRequestParts) -> (r: IpcRequest)
    ensures
        r.request_id == parts.request_id,
        r.website_origin == parts.website_origin,
        r.document_name == parts.document_name,
        r.preview_pdf == parts.preview_pdf,
        r.byte_range_content == parts.byte_range_content,
{
    IpcRequest {
        request_id: parts.request_id,
        website_origin: parts.website_origin,
        document_name: parts.document_name,
        preview_pdf: parts.preview_pdf,
        byte_range_content: parts.byte_range_content,
    }
}

/// What the host observed while it waits for the desktop's answer.
pub enum HostWaitEvent {
    /// The desktop sent a command.
    Desktop(DesktopCommand),
    /// The desktop closed the stream, the stream failed, or its reader
    /// stopped.
    DesktopLost,
    /// The browser closed the host's standard input.
    BrowserGone,
    /// Nothing happened yet.
    Idle,
}

/// What the host does next.
pub enum HostWaitStep {
    /// The desktop answered: this is the request's terminal response.
    Respond(TerminalResponse),
    /// Send this command to the desktop, then report the UI unavailable.
    NotifyAndGiveUp(HostCommand),
    /// Report the UI unavailable.
    GiveUp,
    /// Keep waiting.
    Continue,
}

/// One step of the host's wait for the desktop's answer to `request_id`:
/// when the browser goes away the desktop is told to drop the request.
pub fn on_host_wait_event(request_id: &str, event: HostWaitEvent) -> (r: HostWaitStep)
    ensures
        event matches HostWaitEvent::Desktop(DesktopCommand::Terminal(response)) ==> (r
            == HostWaitStep::Respond(response)),
        event is DesktopLost ==> r is GiveUp,
        event is BrowserGone ==> (r matches HostWaitStep::NotifyAndGiveUp(
            HostCommand::Disconnect { request_id: id },
        ) && id@ == request_id@),
        event is Idle ==> r is Continue,
{
    match event {
        HostWaitEvent::Desktop(DesktopCommand::Terminal(response)) => HostWaitStep::Respond(
            response,
        ),
        HostWaitEvent::DesktopLost => HostWaitStep::GiveUp,
        HostWaitEvent::BrowserGone => HostWaitStep::NotifyAndGiveUp(
            HostCommand::Disconnect { request_id: request_id.to_owned() },
        ),
        HostWaitEvent::Idle => HostWaitStep::Continue,
    }
}

} // verus!
