use std::{cell::Cell, rc::Rc};

use inkwell::protocol::{CancellationReason, ErrorCode, TerminalResponse};
use inkwell::request_machine::{
    request_timeout, ClearRequest, Elapsed, RequestMachine, RequestState, TransitionError,
    NANOS_PER_SEC, REQUEST_TIMEOUT_SECS,
};

const FIRST_ID: &str = "123e4567-e89b-42d3-a456-426614174000";
const SECOND_ID: &str = "123e4567-e89b-42d3-a456-426614174001";

struct Secret {
    cleared: Rc<Cell<bool>>,
}

impl ClearRequest for Secret {
    fn cleared(&self) -> bool {
        self.cleared.get()
    }

    fn clear(&mut self) {
        self.cleared.set(true);
    }
}

fn secret() -> (Secret, Rc<Cell<bool>>) {
    let cleared = Rc::new(Cell::new(false));
    (
        Secret {
            cleared: Rc::clone(&cleared),
        },
        cleared,
    )
}

#[test]
fn enforces_legal_states_and_exactly_once_completion() {
    let (data, cleared) = secret();
    let mut machine = RequestMachine::default();
    let token = machine
        .accept(FIRST_ID.to_owned(), data, Elapsed::zero())
        .expect("slot should be free");

    assert_eq!(machine.state(), Some(RequestState::Reviewing));
    assert_eq!(
        machine.transition(token, RequestState::Confirming),
        Err(TransitionError::IllegalTransition)
    );
    for state in [
        RequestState::DiscoveringCertificates,
        RequestState::Confirming,
        RequestState::Signing,
        RequestState::Responding,
    ] {
        machine
            .transition(token, state)
            .expect("transition is legal");
    }
    machine
        .response_delivered(token)
        .expect("response should complete once");

    assert!(cleared.get());
    assert_eq!(machine.state(), None);
    assert_eq!(
        machine.response_delivered(token),
        Err(TransitionError::NoActiveRequest)
    );
}

#[test]
fn rejects_concurrent_work_without_disturbing_the_active_request() {
    let (first, first_cleared) = secret();
    let (second, second_cleared) = secret();
    let mut machine = RequestMachine::default();
    machine
        .accept(FIRST_ID.to_owned(), first, Elapsed::zero())
        .expect("first request should be accepted");

    let busy = machine
        .accept(SECOND_ID.to_owned(), second, Elapsed::zero())
        .expect_err("second request must be busy");

    assert_eq!(machine.request_id(), Some(FIRST_ID));
    assert!(!first_cleared.get());
    assert!(second_cleared.get());
    let TerminalResponse::Error(error) = busy.response else {
        panic!("busy outcome must be an error");
    };
    assert_eq!(error.request_id.as_deref(), Some(SECOND_ID));
    assert_eq!(error.error.code, ErrorCode::Busy);
}

#[test]
fn user_and_window_cancellation_clear_data_and_are_terminal() {
    for reason in [
        CancellationReason::UserCancelled,
        CancellationReason::WindowClosed,
    ] {
        let (data, cleared) = secret();
        let mut machine = RequestMachine::default();
        let token = machine
            .accept(FIRST_ID.to_owned(), data, Elapsed::zero())
            .expect("request should be accepted");

        let response = machine
            .cancel(token, reason)
            .expect("request should cancel");

        assert!(cleared.get());
        let TerminalResponse::Cancelled(cancelled) = response else {
            panic!("expected cancellation");
        };
        assert_eq!(cancelled.reason, reason);
        assert_eq!(
            machine.cancel(token, reason),
            Err(TransitionError::NoActiveRequest)
        );
    }
}

#[test]
fn timeout_clears_waiting_work_but_stops_when_signing_begins() {
    let (data, cleared) = secret();
    let mut machine = RequestMachine::default();
    let token = machine
        .accept(FIRST_ID.to_owned(), data, Elapsed::from_secs(10))
        .expect("request should be accepted");
    assert_eq!(
        machine.poll_timeout(token, Elapsed::from_secs(909)),
        Ok(None)
    );
    let response = machine
        .poll_timeout(token, Elapsed::from_secs(910))
        .expect("token should match")
        .expect("deadline should expire");
    assert!(cleared.get());
    let TerminalResponse::Error(error) = response else {
        panic!("timeout must be an error");
    };
    assert_eq!(error.error.code, ErrorCode::RequestTimeout);

    let (data, signing_cleared) = secret();
    let token = machine
        .accept(FIRST_ID.to_owned(), data, Elapsed::zero())
        .expect("new request should be accepted");
    for state in [
        RequestState::DiscoveringCertificates,
        RequestState::Confirming,
        RequestState::Signing,
    ] {
        machine
            .transition(token, state)
            .expect("transition is legal");
    }
    assert_eq!(
        machine.poll_timeout(token, Elapsed::from_secs(REQUEST_TIMEOUT_SECS * 2)),
        Ok(None)
    );
    assert!(!signing_cleared.get());
}

#[test]
fn disconnect_clears_unsigned_work_without_retaining_a_result() {
    let (data, cleared) = secret();
    let mut machine = RequestMachine::default();
    let token = machine
        .accept(FIRST_ID.to_owned(), data, Elapsed::zero())
        .expect("request should be accepted");

    let response = machine
        .extension_disconnected(token)
        .expect("token should match")
        .expect("unsigned work should terminate");

    assert!(cleared.get());
    assert_eq!(machine.request_id(), None);
    let TerminalResponse::Error(error) = response else {
        panic!("disconnect must be an error");
    };
    assert_eq!(error.error.code, ErrorCode::ExtensionDisconnected);
    assert_eq!(
        machine.extension_disconnected(token),
        Err(TransitionError::NoActiveRequest)
    );
}

#[test]
fn consecutive_requests_get_distinct_tokens_and_stale_tokens_are_refused() {
    let mut machine = RequestMachine::default();
    let (data, _) = secret();
    let first = machine
        .accept(FIRST_ID.to_owned(), data, Elapsed::zero())
        .unwrap();
    machine
        .cancel(first, CancellationReason::UserCancelled)
        .unwrap();
    let (data, _) = secret();
    let second = machine
        .accept(SECOND_ID.to_owned(), data, Elapsed::zero())
        .unwrap();
    assert_ne!(first, second);
    assert_eq!(
        machine.transition(first, RequestState::DiscoveringCertificates),
        Err(TransitionError::NoActiveRequest)
    );
    assert_eq!(machine.state(), Some(RequestState::Reviewing));
    assert_eq!(machine.request_id(), Some(SECOND_ID));
}

#[test]
fn transitions_only_move_one_step_forward() {
    let (data, _) = secret();
    let mut machine = RequestMachine::default();
    let token = machine
        .accept(FIRST_ID.to_owned(), data, Elapsed::zero())
        .unwrap();
    for illegal in [
        RequestState::Reviewing,
        RequestState::Confirming,
        RequestState::Signing,
        RequestState::Responding,
    ] {
        assert_eq!(
            machine.transition(token, illegal),
            Err(TransitionError::IllegalTransition)
        );
        assert_eq!(machine.state(), Some(RequestState::Reviewing));
    }
    machine
        .transition(token, RequestState::DiscoveringCertificates)
        .unwrap();
    assert_eq!(
        machine.transition(token, RequestState::Reviewing),
        Err(TransitionError::IllegalTransition)
    );
    assert_eq!(
        machine.response_delivered(token),
        Err(TransitionError::IllegalTransition)
    );
}

#[test]
fn signing_is_never_interrupted() {
    let (data, cleared) = secret();
    let mut machine = RequestMachine::default();
    let token = machine
        .accept(FIRST_ID.to_owned(), data, Elapsed::zero())
        .unwrap();
    for state in [
        RequestState::DiscoveringCertificates,
        RequestState::Confirming,
        RequestState::Signing,
    ] {
        machine.transition(token, state).unwrap();
    }
    assert_eq!(
        machine.cancel(token, CancellationReason::UserCancelled),
        Err(TransitionError::IllegalTransition)
    );
    assert_eq!(machine.extension_disconnected(token), Ok(None));
    assert_eq!(machine.poll_timeout(token, request_timeout()), Ok(None));
    assert_eq!(machine.state(), Some(RequestState::Signing));
    assert!(!cleared.get());
    machine
        .transition(token, RequestState::Responding)
        .unwrap();
    machine.response_delivered(token).unwrap();
    assert!(cleared.get());
}

#[test]
fn the_deadline_is_fifteen_minutes_after_acceptance() {
    assert_eq!(
        request_timeout().as_nanos(),
        u128::from(REQUEST_TIMEOUT_SECS) * NANOS_PER_SEC
    );
    assert_eq!(REQUEST_TIMEOUT_SECS, 15 * 60);
    let (data, _) = secret();
    let mut machine = RequestMachine::default();
    let token = machine
        .accept(FIRST_ID.to_owned(), data, Elapsed::from_nanos(5))
        .unwrap();
    let just_before = Elapsed::from_nanos(request_timeout().as_nanos() + 4);
    assert_eq!(machine.poll_timeout(token, just_before), Ok(None));
    assert_eq!(machine.poll_timeout(token, Elapsed::zero()), Ok(None));
    let at_deadline = Elapsed::from_nanos(request_timeout().as_nanos() + 5);
    assert!(matches!(
        machine.poll_timeout(token, at_deadline),
        Ok(Some(TerminalResponse::Error(_)))
    ));
    assert_eq!(
        machine.poll_timeout(token, at_deadline),
        Err(TransitionError::NoActiveRequest)
    );
}

#[test]
fn discarding_clears_the_active_request() {
    let (data, cleared) = secret();
    let mut machine = RequestMachine::default();
    machine
        .accept(FIRST_ID.to_owned(), data, Elapsed::zero())
        .unwrap();
    machine.discard_active();
    assert!(cleared.get());
    assert_eq!(machine.state(), None);
    let (data, _) = secret();
    assert!(machine
        .accept(SECOND_ID.to_owned(), data, Elapsed::zero())
        .is_ok());
}

#[test]
fn elapsed_values_convert_exactly() {
    assert_eq!(Elapsed::zero().as_nanos(), 0);
    assert_eq!(Elapsed::from_secs(3).as_nanos(), 3_000_000_000);
    assert_eq!(Elapsed::from_nanos(17).as_nanos(), 17);
}

#[test]
fn dropping_the_machine_clears_an_active_request() {
    let (data, cleared) = secret();
    let mut machine = RequestMachine::default();
    machine
        .accept(FIRST_ID.to_owned(), data, Elapsed::zero())
        .expect("request should be accepted");
    machine.discard_active();
    drop(machine);
    assert!(cleared.get());
}
