use inkwell::protocol::{
    CancellationReason, CmsPayload, ErrorCode, SignCancelled, SignError, SignSuccess,
    TerminalResponse, VERSION,
};

const REQUEST_ID: &str = "123e4567-e89b-42d3-a456-426614174000";

#[test]
fn envelopes_are_built_for_version_one() {
    assert_eq!(VERSION, 1);
    let cms = CmsPayload {
        format: "cms".to_owned(),
        encoding: "base64".to_owned(),
        data: "AA==".to_owned(),
        sha256: "a".repeat(64),
    };
    let success = SignSuccess::new(REQUEST_ID.to_owned(), cms.clone());
    assert_eq!(success.version, VERSION);
    assert_eq!(success.request_id, REQUEST_ID);
    assert_eq!(success.cms, cms);

    let cancelled = SignCancelled::new(REQUEST_ID.to_owned(), CancellationReason::WindowClosed);
    assert_eq!(cancelled.version, VERSION);
    assert_eq!(cancelled.request_id, REQUEST_ID);
    assert_eq!(cancelled.reason, CancellationReason::WindowClosed);

    let error = SignError::new(None, ErrorCode::InvalidMessage, "bad".to_owned());
    assert_eq!(error.version, VERSION);
    assert_eq!(error.request_id, None);
    assert_eq!(error.error.code, ErrorCode::InvalidMessage);
    assert_eq!(error.error.message, "bad");
}

#[test]
fn terminal_responses_compare_by_content() {
    let a = TerminalResponse::Cancelled(SignCancelled::new(
        REQUEST_ID.to_owned(),
        CancellationReason::UserCancelled,
    ));
    let b = TerminalResponse::Cancelled(SignCancelled::new(
        REQUEST_ID.to_owned(),
        CancellationReason::UserCancelled,
    ));
    let c = TerminalResponse::Cancelled(SignCancelled::new(
        REQUEST_ID.to_owned(),
        CancellationReason::WindowClosed,
    ));
    assert_eq!(a, b);
    assert_ne!(a, c);
}
