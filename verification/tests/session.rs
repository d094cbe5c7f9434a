use spot_supervisor::errors::{RestError, UnitError};
use spot_supervisor::session::{AccountSession, SessionAction, SessionEvent, SessionState};

fn open_active_session(renew_interval: u64, expiry_window: u64, at: u64) -> AccountSession {
    let mut s = AccountSession::new(false, renew_interval, expiry_window);
    assert_eq!(s.open(), SessionAction::RequestKey);
    assert_eq!(s.current_state(), SessionState::Requesting);
    let r = s.on_event(SessionEvent::OpenResult {
        now: at,
        result: Ok("listenkey".to_string()),
    });
    assert_eq!(r, (SessionAction::OpenStream, None));
    assert_eq!(s.current_state(), SessionState::Active);
    s
}

#[test]
fn open_issues_key_and_stream() {
    let s = open_active_session(30, 60, 5);
    let key = s.listen_key().as_ref().unwrap();
    assert_eq!(key.token, "listenkey");
    assert_eq!(key.issued_at, 5);
    assert_eq!(key.renew_by, 35);
}

#[test]
fn open_auth_rejection_is_fatal() {
    let mut s = AccountSession::new(false, 30, 60);
    s.open();
    let r = s.on_event(SessionEvent::OpenResult {
        now: 0,
        result: Err(RestError::AuthRejected),
    });
    assert_eq!(r, (SessionAction::Idle, Some(UnitError::Auth)));
    assert_eq!(s.current_state(), SessionState::Closed);
    assert!(s.listen_key().is_none());
}

#[test]
fn open_transport_failure_closes() {
    let mut s = AccountSession::new(false, 30, 60);
    s.open();
    let r = s.on_event(SessionEvent::OpenResult {
        now: 0,
        result: Err(RestError::Timeout),
    });
    assert_eq!(r, (SessionAction::Idle, Some(UnitError::Transport)));
    assert_eq!(s.current_state(), SessionState::Closed);
}

// Scenario: renewal interval 30 units, expiry window 60 units; after three
// successful renewal cycles the key has never exceeded an age of 60 units
// at renewal time.
#[test]
fn three_renewal_cycles_never_expire() {
    let expiry: u64 = 60;
    let mut s = open_active_session(30, expiry, 0);
    let mut last_renewal: u64 = 0;
    for fire in [30u64, 60, 90] {
        let age_at_renewal = fire - last_renewal;
        assert!(age_at_renewal < expiry);
        let r = s.on_event(SessionEvent::Renew { now: fire, result: Ok(()) });
        assert_eq!(r, (SessionAction::Idle, None));
        assert_eq!(s.current_state(), SessionState::Active);
        let key = s.listen_key().as_ref().unwrap();
        assert_eq!(key.renew_by, fire + 30);
        last_renewal = fire;
    }
    assert_eq!(s.listen_key().as_ref().unwrap().renew_by, 120);
}

#[test]
fn renewal_failure_retries_then_closes() {
    let mut s = open_active_session(30, 60, 0);
    // First keep-alive failure: bounded retrying starts.
    let r = s.on_event(SessionEvent::Renew { now: 30, result: Err(RestError::Timeout) });
    assert_eq!(r, (SessionAction::Idle, None));
    assert_eq!(s.current_state(), SessionState::Renewing);
    // Three more failures spend the retry budget without closing.
    for now in [31u64, 32, 33] {
        let r = s.on_event(SessionEvent::Renew { now, result: Err(RestError::ServerError) });
        assert_eq!(r, (SessionAction::Idle, None));
        assert_eq!(s.current_state(), SessionState::Renewing);
    }
    // The budget is spent: the next failure closes the session.
    let r = s.on_event(SessionEvent::Renew { now: 34, result: Err(RestError::Timeout) });
    assert_eq!(r, (SessionAction::Idle, Some(UnitError::Transport)));
    assert_eq!(s.current_state(), SessionState::Closed);
}

#[test]
fn renewal_recovers_within_budget() {
    let mut s = open_active_session(30, 60, 0);
    s.on_event(SessionEvent::Renew { now: 30, result: Err(RestError::Timeout) });
    s.on_event(SessionEvent::Renew { now: 31, result: Err(RestError::Timeout) });
    assert_eq!(s.current_state(), SessionState::Renewing);
    let r = s.on_event(SessionEvent::Renew { now: 32, result: Ok(()) });
    assert_eq!(r, (SessionAction::Idle, None));
    assert_eq!(s.current_state(), SessionState::Active);
    assert_eq!(s.listen_key().as_ref().unwrap().renew_by, 62);
}

#[test]
fn renewal_auth_rejection_closes_at_once() {
    let mut s = open_active_session(30, 60, 0);
    let r = s.on_event(SessionEvent::Renew { now: 30, result: Err(RestError::AuthRejected) });
    assert_eq!(r, (SessionAction::Idle, Some(UnitError::Auth)));
    assert_eq!(s.current_state(), SessionState::Closed);
}

#[test]
fn stream_closure_forces_closed() {
    let mut s = open_active_session(30, 60, 0);
    let r = s.on_event(SessionEvent::StreamClosed);
    assert_eq!(r, (SessionAction::Idle, Some(UnitError::ConnectionLost)));
    assert_eq!(s.current_state(), SessionState::Closed);
    assert!(s.listen_key().is_none());
}

#[test]
fn closed_session_absorbs_events() {
    let mut s = open_active_session(30, 60, 0);
    s.on_event(SessionEvent::StreamClosed);
    let r = s.on_event(SessionEvent::Renew { now: 40, result: Ok(()) });
    assert_eq!(r, (SessionAction::Idle, None));
    assert_eq!(s.current_state(), SessionState::Closed);
    let r = s.on_event(SessionEvent::StreamClosed);
    assert_eq!(r, (SessionAction::Idle, None));
}

#[test]
fn explicit_close_invalidates_key() {
    let mut s = open_active_session(30, 60, 0);
    s.close();
    assert_eq!(s.current_state(), SessionState::Closed);
    assert!(s.listen_key().is_none());
}
