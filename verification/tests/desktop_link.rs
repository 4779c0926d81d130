use inkwell::desktop_link::{
    desktop_request, on_host_wait_event, on_wait_event, open_connection, HostWaitEvent,
    HostWaitStep, Opening, WaitEvent, WaitStep,
};
use inkwell::local_ipc::{DesktopCommand, HostCommand, IpcRequest};
use inkwell::protocol::{CancellationReason, ErrorCode, SignCancelled, TerminalResponse};
use inkwell::review_session::DesktopSession;
use inkwell::validation::ValidatedRequestParts;

const REQUEST_ID: &str = "123e4567-e89b-42d3-a456-426614174000";
const OTHER_ID: &str = "123e4567-e89b-42d3-a456-426614174001";

fn request(request_id: &str) -> IpcRequest {
    IpcRequest {
        request_id: request_id.to_owned(),
        website_origin: "https://example.com".to_owned(),
        document_name: "contract.pdf".to_owned(),
        preview_pdf: b"%PDF-1.7\n".to_vec(),
        byte_range_content: b"byte range".to_vec(),
    }
}

fn error_code(response: &TerminalResponse) -> ErrorCode {
    let TerminalResponse::Error(error) = response else {
        panic!("expected an error response");
    };
    error.error.code
}

#[test]
fn a_request_is_accepted_then_a_second_one_is_busy() {
    let mut session = DesktopSession::default();
    let opening = open_connection(&mut session, HostCommand::Request(request(REQUEST_ID)));
    assert!(matches!(opening, Opening::Accepted { ref request_id } if request_id == REQUEST_ID));
    let opening = open_connection(&mut session, HostCommand::Request(request(OTHER_ID)));
    let Opening::Answer(response) = opening else {
        panic!("second request must be answered");
    };
    assert_eq!(error_code(&response), ErrorCode::Busy);
    assert!(session.review().is_some());
}

#[test]
fn a_disconnect_on_a_new_connection_ends_only_the_shown_request() {
    let mut session = DesktopSession::default();
    assert!(matches!(
        open_connection(
            &mut session,
            HostCommand::Disconnect {
                request_id: REQUEST_ID.to_owned()
            }
        ),
        Opening::Close
    ));
    open_connection(&mut session, HostCommand::Request(request(REQUEST_ID)));
    assert!(matches!(
        open_connection(
            &mut session,
            HostCommand::Disconnect {
                request_id: OTHER_ID.to_owned()
            }
        ),
        Opening::Close
    ));
    let Opening::Answer(response) = open_connection(
        &mut session,
        HostCommand::Disconnect {
            request_id: REQUEST_ID.to_owned(),
        },
    ) else {
        panic!("disconnect of the shown request is answered");
    };
    assert_eq!(error_code(&response), ErrorCode::ExtensionDisconnected);
    assert!(session.review().is_none());
}

#[test]
fn the_window_outcome_is_delivered_as_is() {
    let mut session = DesktopSession::default();
    open_connection(&mut session, HostCommand::Request(request(REQUEST_ID)));
    let outcome = TerminalResponse::Cancelled(SignCancelled::new(
        REQUEST_ID.to_owned(),
        CancellationReason::UserCancelled,
    ));
    let WaitStep::Deliver(delivered) =
        on_wait_event(&mut session, REQUEST_ID, WaitEvent::Outcome(outcome.clone()))
    else {
        panic!("the outcome must be delivered");
    };
    assert_eq!(delivered, outcome);
    assert!(matches!(
        on_wait_event(&mut session, REQUEST_ID, WaitEvent::OutcomeLost),
        WaitStep::Close
    ));
}

#[test]
fn the_host_leaving_ends_the_request_without_an_answer() {
    for event in [
        WaitEvent::HostGone,
        WaitEvent::Host(HostCommand::Disconnect {
            request_id: REQUEST_ID.to_owned(),
        }),
    ] {
        let mut session = DesktopSession::default();
        open_connection(&mut session, HostCommand::Request(request(REQUEST_ID)));
        assert!(matches!(
            on_wait_event(&mut session, REQUEST_ID, event),
            WaitStep::Invalidate
        ));
        assert!(session.review().is_none());
        assert!(matches!(
            on_wait_event(&mut session, REQUEST_ID, WaitEvent::HostGone),
            WaitStep::Close
        ));
    }
}

#[test]
fn other_host_commands_are_ignored_while_waiting() {
    let mut session = DesktopSession::default();
    open_connection(&mut session, HostCommand::Request(request(REQUEST_ID)));
    for event in [
        WaitEvent::Host(HostCommand::Disconnect {
            request_id: OTHER_ID.to_owned(),
        }),
        WaitEvent::Host(HostCommand::Request(request(OTHER_ID))),
    ] {
        assert!(matches!(
            on_wait_event(&mut session, REQUEST_ID, event),
            WaitStep::Continue
        ));
    }
    assert!(session.review().is_some());
}

#[test]
fn the_deadline_times_the_request_out_once() {
    let mut session = DesktopSession::default();
    open_connection(&mut session, HostCommand::Request(request(REQUEST_ID)));
    let WaitStep::InvalidateAndDeliver(response) =
        on_wait_event(&mut session, REQUEST_ID, WaitEvent::DeadlinePassed)
    else {
        panic!("deadline must answer the host");
    };
    assert_eq!(error_code(&response), ErrorCode::RequestTimeout);
    assert!(matches!(
        on_wait_event(&mut session, REQUEST_ID, WaitEvent::DeadlinePassed),
        WaitStep::Close
    ));
}

#[test]
fn the_host_tells_the_desktop_when_the_browser_leaves() {
    assert!(matches!(
        on_host_wait_event(REQUEST_ID, HostWaitEvent::Idle),
        HostWaitStep::Continue
    ));
    assert!(matches!(
        on_host_wait_event(REQUEST_ID, HostWaitEvent::DesktopLost),
        HostWaitStep::GiveUp
    ));
    let HostWaitStep::NotifyAndGiveUp(HostCommand::Disconnect { request_id }) =
        on_host_wait_event(REQUEST_ID, HostWaitEvent::BrowserGone)
    else {
        panic!("the desktop must be told");
    };
    assert_eq!(request_id, REQUEST_ID);
    let outcome = TerminalResponse::Cancelled(SignCancelled::new(
        REQUEST_ID.to_owned(),
        CancellationReason::WindowClosed,
    ));
    let HostWaitStep::Respond(response) = on_host_wait_event(
        REQUEST_ID,
        HostWaitEvent::Desktop(DesktopCommand::Terminal(outcome.clone())),
    ) else {
        panic!("the desktop's answer is the response");
    };
    assert_eq!(response, outcome);
}

#[test]
fn the_desktop_receives_the_validated_fields() {
    let parts = ValidatedRequestParts {
        request_id: REQUEST_ID.to_owned(),
        website_origin: "https://example.com".to_owned(),
        document_name: "contract.pdf".to_owned(),
        preview_pdf: vec![1, 2, 3],
        byte_range_content: vec![4, 5],
    };
    let request = desktop_request(parts);
    assert_eq!(request.request_id, REQUEST_ID);
    assert_eq!(request.website_origin, "https://example.com");
    assert_eq!(request.document_name, "contract.pdf");
    assert_eq!(request.preview_pdf, vec![1, 2, 3]);
    assert_eq!(request.byte_range_content, vec![4, 5]);
}
