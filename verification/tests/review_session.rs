use inkwell::local_ipc::IpcRequest;
use inkwell::protocol::{CancellationReason, ErrorCode, TerminalResponse};
use inkwell::review_session::{
    internal_error, DesktopSession, PdfPageMetadata, PdfReviewStatus, PDF_REVIEW_PENDING_MESSAGE,
};

const REQUEST_ID: &str = "123e4567-e89b-42d3-a456-426614174000";
const PNG: &[u8] = b"\x89PNG\r\n\x1a\nfixture";

fn request(request_id: &str) -> IpcRequest {
    IpcRequest {
        request_id: request_id.to_owned(),
        website_origin: "https://example.com".to_owned(),
        document_name: "contract.pdf".to_owned(),
        preview_pdf: b"%PDF-1.7\n".to_vec(),
        byte_range_content: b"byte range".to_vec(),
    }
}

#[test]
fn accepted_request_reports_pdfium_configuration_failure() {
    let mut state = DesktopSession::default();
    state
        .accept(request(REQUEST_ID))
        .expect("request should be accepted");

    let review = state.review().expect("review should be present");
    assert_eq!(review.request_id, REQUEST_ID);
    assert_eq!(review.document_size_bytes, 9);
    assert_eq!(review.status, PdfReviewStatus::Failed);
    assert_eq!(
        review.status_message.as_deref(),
        Some(PDF_REVIEW_PENDING_MESSAGE)
    );
    assert!(review.pages.is_empty());
    assert!(state.continue_signing(REQUEST_ID).is_err());
    assert!(state.render_page(REQUEST_ID, 1).is_err());
}

#[test]
fn ready_backend_controls_pages_rendering_and_continuation() {
    let mut state = DesktopSession::default();
    state
        .accept(request(REQUEST_ID))
        .expect("request should be accepted");
    state
        .install_ready_pages(
            REQUEST_ID,
            vec![(
                PdfPageMetadata {
                    page_number: 1,
                    width: 612,
                    height: 792,
                },
                PNG.to_vec(),
            )],
        )
        .expect("test backend should install pages");

    let review = state.review().unwrap();
    assert_eq!(review.status, PdfReviewStatus::Ready);
    assert_eq!(review.pages.len(), 1);
    assert_eq!(state.render_page(REQUEST_ID, 1).unwrap(), PNG.to_vec());
    assert!(state.render_page(REQUEST_ID, 2).is_err());

    state
        .continue_signing(REQUEST_ID)
        .expect("ready request should continue");
    assert!(state.review().is_none());
    assert!(state.continue_signing(REQUEST_ID).is_err());
}

#[test]
fn cancellation_consumes_the_request_and_notifies_the_ipc_handler() {
    let mut state = DesktopSession::default();
    state
        .accept(request(REQUEST_ID))
        .expect("request should be accepted");

    let response = state
        .cancel(REQUEST_ID, CancellationReason::UserCancelled)
        .expect("request should cancel");

    assert_eq!(response.reason, CancellationReason::UserCancelled);
    assert_eq!(response.request_id, REQUEST_ID);
    assert!(state.review().is_none());
    assert!(state
        .cancel(REQUEST_ID, CancellationReason::UserCancelled)
        .is_err());
}

#[test]
fn disconnect_consumes_the_request_exactly_once() {
    let mut state = DesktopSession::default();
    state
        .accept(request(REQUEST_ID))
        .expect("request should be accepted");

    let response = state
        .disconnect(REQUEST_ID)
        .expect("request should disconnect");
    let TerminalResponse::Error(error) = response else {
        panic!("disconnect must be an error");
    };
    assert_eq!(error.error.code, ErrorCode::ExtensionDisconnected);
    assert!(state.review().is_none());
    assert!(state.disconnect(REQUEST_ID).is_err());
}

#[test]
fn concurrent_request_gets_busy_and_timeout_releases_the_slot() {
    let mut state = DesktopSession::default();
    state
        .accept(request(REQUEST_ID))
        .expect("first request should be accepted");
    let busy = state
        .accept(request("123e4567-e89b-42d3-a456-426614174001"))
        .expect_err("second request should be busy");
    let TerminalResponse::Error(error) = *busy else {
        panic!("busy must be an error");
    };
    assert_eq!(error.error.code, ErrorCode::Busy);

    let timeout = state.timeout(REQUEST_ID).expect("request should time out");
    let TerminalResponse::Error(error) = timeout else {
        panic!("timeout must be an error");
    };
    assert_eq!(error.error.code, ErrorCode::RequestTimeout);
    assert!(state.review().is_none());
    assert!(state
        .accept(request("123e4567-e89b-42d3-a456-426614174002"))
        .is_ok());
}

#[test]
fn refusals_name_why_a_command_was_not_carried_out() {
    let mut state = DesktopSession::default();
    assert_eq!(
        state.render_page(REQUEST_ID, 1),
        Err("request is no longer active")
    );
    state.accept(request(REQUEST_ID)).unwrap();
    assert_eq!(
        state.render_page("123e4567-e89b-42d3-a456-426614174009", 1),
        Err("request is no longer active")
    );
    assert_eq!(state.render_page(REQUEST_ID, 1), Err("PDF review is not ready"));
    assert_eq!(
        state.continue_signing(REQUEST_ID),
        Err("PDF review is not ready")
    );
    state
        .install_ready_pages(REQUEST_ID, vec![])
        .expect("an empty page list is still a ready review");
    assert_eq!(
        state.render_page(REQUEST_ID, 1),
        Err("PDF review page is unavailable")
    );
    state.continue_signing(REQUEST_ID).unwrap();
    assert_eq!(
        state.render_page(REQUEST_ID, 1),
        Err("PDF review is no longer active")
    );
    assert_eq!(
        state.install_ready_pages(REQUEST_ID, vec![]),
        Err("PDF review is no longer active")
    );
    assert_eq!(
        state.continue_signing(REQUEST_ID),
        Err("PDF review is not ready")
    );
}

#[test]
fn the_first_page_with_a_number_is_the_one_served() {
    let mut state = DesktopSession::default();
    state.accept(request(REQUEST_ID)).unwrap();
    let page = PdfPageMetadata {
        page_number: 3,
        width: 10,
        height: 20,
    };
    state
        .install_ready_pages(REQUEST_ID, vec![(page, b"first".to_vec()), (page, b"second".to_vec())])
        .unwrap();
    assert_eq!(state.render_page(REQUEST_ID, 3).unwrap(), b"first".to_vec());
    let review = state.review().unwrap();
    assert_eq!(review.pages, vec![page, page]);
    assert_eq!(review.status_message, None);
}

#[test]
fn closing_the_window_cancels_the_shown_request() {
    let mut state = DesktopSession::default();
    assert!(state.close_active_window().is_none());
    state.accept(request(REQUEST_ID)).unwrap();
    let cancelled = state.close_active_window().expect("window showed a request");
    assert_eq!(cancelled.request_id, REQUEST_ID);
    assert_eq!(cancelled.reason, CancellationReason::WindowClosed);
    assert!(state.close_active_window().is_none());
    assert!(state.accept(request(REQUEST_ID)).is_ok());
}

#[test]
fn a_continued_request_can_still_be_cancelled_before_signing() {
    let mut state = DesktopSession::default();
    state.accept(request(REQUEST_ID)).unwrap();
    state.install_ready_pages(REQUEST_ID, vec![]).unwrap();
    state.continue_signing(REQUEST_ID).unwrap();
    let cancelled = state
        .cancel(REQUEST_ID, CancellationReason::UserCancelled)
        .unwrap();
    assert_eq!(cancelled.request_id, REQUEST_ID);
}

#[test]
fn discarding_the_session_frees_the_slot() {
    let mut state = DesktopSession::default();
    state.accept(request(REQUEST_ID)).unwrap();
    state.discard();
    assert!(state.review().is_none());
    assert!(state.accept(request(REQUEST_ID)).is_ok());
}

#[test]
fn unavailable_state_is_an_internal_error_without_identifier() {
    let TerminalResponse::Error(error) = internal_error() else {
        panic!("must be an error");
    };
    assert_eq!(error.error.code, ErrorCode::InternalError);
    assert_eq!(error.error.message, "The request state is unavailable.");
    assert!(error.request_id.is_none());
}
