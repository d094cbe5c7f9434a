//! Listen-key lifecycle of the account session.
//!
//! The account session owns one renewable listen key and the private
//! websocket opened against it. The session is a state machine over plain
//! values: the process around it performs the REST calls and the websocket
//! handling, and feeds the outcomes back as events carrying the current time
//! in abstract units. All decisions — when the key is issued, renewed,
//! retried or given up — are taken here and are pure functions of the state
//! and the event, never of a clock read behind the caller's back.
//!
//! Reconnection is deliberately not attempted here: when the private stream
//! closes, the session reports `ConnectionLost` and stays closed, and the
//! supervisor decides what the process does next.

use vstd::prelude::*;
use crate::errors::{RestError, UnitError};

verus! {

/// How many renewal retries remain after a first keep-alive failure before
/// the session gives up and closes.
pub const MAX_RENEW_RETRIES: u8 = 3;

/// The exchange-issued token identifying the private user-data stream.
#[derive(Debug, Clone)]
pub struct ListenKey {
    /// Opaque token string; the private stream path ends in it.
    pub token: String,
    /// Time, in abstract units, at which the key was issued.
    pub issued_at: u64,
    /// Deadline by which the next keep-alive call is due.
    pub renew_by: u64,
}

/// Lifecycle states of the account session.
#[derive(Debug, Clone, Copy, PartialEq, Eq, Structural)]
pub enum SessionState {
    /// No key requested yet.
    Unauthenticated,
    /// The key-creating REST call is in flight.
    Requesting,
    /// A key is held and fresh; the private stream is open.
    Active,
    /// A keep-alive call failed; bounded retries are running.
    Renewing,
    /// Terminal: the key is invalidated and the stream is gone.
    Closed,
}

/// Events the surrounding process feeds back into the session.
#[derive(Debug)]
pub enum SessionEvent {
    /// The key-creating REST call returned, at time `now`, with the token or
    /// the failure.
    OpenResult { now: u64, result: Result<String, RestError> },
    /// The renewal timer fired at time `now` and the keep-alive REST call
    /// returned with this result.
    Renew { now: u64, result: Result<(), RestError> },
    /// The private websocket closed (peer reset, timeout or forced expiry).
    StreamClosed,
}

/// Side effects the session asks the surrounding process to perform.
#[derive(Debug, Clone, Copy, PartialEq, Eq, Structural)]
pub enum SessionAction {
    /// Nothing to do.
    Idle,
    /// Issue the REST call that creates a listen key.
    RequestKey,
    /// Open the private websocket against the freshly issued key.
    OpenStream,
}

/// The account session: one listen key, one private stream, no reconnect of
/// its own.
#[derive(Debug, Clone)]
pub struct AccountSession {
    /// Lifecycle state.
    pub state: SessionState,
    /// Whether the margin listen-key path manages this session's key.
    pub margin: bool,
    /// Renewal timer interval, in abstract time units.
    pub renew_interval: u64,
    /// Exchange-side expiry window of an unrenewed key, in the same units.
    pub expiry_window: u64,
    /// Time of the key's issue or of the last successful keep-alive.
    pub last_renewal: u64,
    /// Renewal retries remaining before the session closes.
    pub retries_left: u8,
    /// The held key, while one exists.
    pub key: Option<ListenKey>,
}

impl AccountSession {
    /// Well-formedness: the renewal interval is positive and strictly
    /// shorter than the expiry window, the retry budget is bounded, and
    /// while a key is held its renewal deadline is one interval past the
    /// last renewal.
    pub open spec fn wf(self) -> bool {
        &&& 0 < self.renew_interval < self.expiry_window
        &&& self.retries_left <= MAX_RENEW_RETRIES
        &&& (self.state is Active || self.state is Renewing) ==> (self.key matches Some(k)
            && k.issued_at <= self.last_renewal
            && k.renew_by == self.last_renewal + self.renew_interval)
    }

    /// Age of the held key at time `now`: the time since the key was issued
    /// or last successfully renewed.
    pub open spec fn key_age(self, now: u64) -> int {
        now - self.last_renewal
    }
}

/// What an event assumes of the machine it reaches: time carried by an event
/// does not run backwards past the last renewal, and stays far enough from
/// the numeric limit that the next renewal deadline can be computed.
pub open spec fn event_wf(s: AccountSession, e: SessionEvent) -> bool {
    match e {
        SessionEvent::OpenResult { now, .. } => s.last_renewal <= now && now + s.expiry_window <= u64::MAX,
        SessionEvent::Renew { now, .. } => s.last_renewal <= now && now + s.expiry_window <= u64::MAX,
        SessionEvent::StreamClosed => true,
    }
}

/// The session after a successful keep-alive at time `now`: active again,
/// retry budget restored, the held key kept with its deadline pushed one
/// interval past `now`. A session holding no key is left unchanged.
pub open spec fn spec_renewed(s: AccountSession, now: u64) -> AccountSession {
    match s.key {
        Some(k) => (AccountSession {
            state: SessionState::Active,
            last_renewal: now,
            retries_left: MAX_RENEW_RETRIES,
            key: Some(ListenKey {
                token: k.token,
                issued_at: k.issued_at,
                renew_by: (now + s.renew_interval) as u64,
            }),
            ..s
        }),
        None => s,
    }
}

/// The session once closed: the key is invalidated and the retry budget is
/// spent; configuration fields are kept for inspection.
pub open spec fn spec_closed(s: AccountSession) -> AccountSession {
    AccountSession { state: SessionState::Closed, key: None, ..s }
}

/// The complete transition of the session on one event. Events that cannot
/// occur in the current state (a renewal result without a key in flight, a
/// stream closure before any stream was opened) leave the session unchanged;
/// the `Closed` state absorbs every event.
pub open spec fn session_next(s: AccountSession, e: SessionEvent) -> AccountSession {
    match e {
        SessionEvent::OpenResult { now, result } => {
            if s.state is Requesting {
                match result {
                    Ok(token) => (AccountSession {
                        state: SessionState::Active,
                        last_renewal: now,
                        retries_left: MAX_RENEW_RETRIES,
                        key: Some(ListenKey {
                            token: token,
                            issued_at: now,
                            renew_by: (now + s.renew_interval) as u64,
                        }),
                        ..s
                    }),
                    Err(_) => spec_closed(s),
                }
            } else {
                s
            }
        }
        SessionEvent::Renew { now, result } => {
            if s.state is Active {
                match result {
                    Ok(_) => spec_renewed(s, now),
                    Err(err) => if err.spec_retryable() {
                        AccountSession { state: SessionState::Renewing, ..s }
                    } else {
                        spec_closed(s)
                    },
                }
            } else if s.state is Renewing {
                match result {
                    Ok(_) => spec_renewed(s, now),
                    Err(err) => if !err.spec_retryable() || s.retries_left == 0 {
                        spec_closed(s)
                    } else {
                        AccountSession { retries_left: (s.retries_left - 1) as u8, ..s }
                    },
                }
            } else {
                s
            }
        }
        SessionEvent::StreamClosed => {
            if s.state is Active || s.state is Renewing {
                spec_closed(s)
            } else {
                s
            }
        }
    }
}

/// The outputs of the session on one event: the action asked of the
/// surrounding process, and the terminal signal if this event ended the
/// session. A signal is emitted exactly when the event moves a live session
/// to `Closed`: a failed key request, a non-retryable or retry-exhausted
/// keep-alive failure, or a stream closure, which surfaces `ConnectionLost`.
pub open spec fn session_emit(s: AccountSession, e: SessionEvent) -> (SessionAction, Option<UnitError>) {
    match e {
        SessionEvent::OpenResult { now: _, result } => {
            if s.state is Requesting {
                match result {
                    Ok(_) => (SessionAction::OpenStream, None),
                    Err(err) => (SessionAction::Idle, Some(err.spec_as_unit_error())),
                }
            } else {
                (SessionAction::Idle, None)
            }
        }
        SessionEvent::Renew { now: _, result } => {
            if s.state is Active {
                match result {
                    Ok(_) => (SessionAction::Idle, None),
                    Err(err) => if err.spec_retryable() {
                        (SessionAction::Idle, None)
                    } else {
                        (SessionAction::Idle, Some(err.spec_as_unit_error()))
                    },
                }
            } else if s.state is Renewing {
                match result {
                    Ok(_) => (SessionAction::Idle, None),
                    Err(err) => if !err.spec_retryable() {
                        (SessionAction::Idle, Some(err.spec_as_unit_error()))
                    } else if s.retries_left == 0 {
                        (SessionAction::Idle, Some(UnitError::Transport))
                    } else {
                        (SessionAction::Idle, None)
                    },
                }
            } else {
                (SessionAction::Idle, None)
            }
        }
        SessionEvent::StreamClosed => {
            if s.state is Active || s.state is Renewing {
                (SessionAction::Idle, Some(UnitError::ConnectionLost))
            } else {
                (SessionAction::Idle, None)
            }
        }
    }
}

impl AccountSession {
    /// A fresh, unauthenticated session. The renewal interval must be
    /// positive and strictly shorter than the expiry window, so that a key
    /// renewed on time never reaches expiry.
    pub fn new(margin: bool, renew_interval: u64, expiry_window: u64) -> (r: AccountSession)
        requires
            0 < renew_interval < expiry_window,
        ensures
            r == (AccountSession {
                state: SessionState::Unauthenticated,
                margin,
                renew_interval,
                expiry_window,
                last_renewal: 0,
                retries_left: MAX_RENEW_RETRIES,
                key: None,
            }),
            r.wf(),
    {
        AccountSession {
            state: SessionState::Unauthenticated,
            margin,
            renew_interval,
            expiry_window,
            last_renewal: 0,
            retries_left: MAX_RENEW_RETRIES,
            key: None,
        }
    }

    /// Begins the session: asks the surrounding process to issue the
    /// key-creating REST call and waits for its `OpenResult`.
    pub fn open(&mut self) -> (a: SessionAction)
        requires
            old(self).wf(),
            old(self).state is Unauthenticated,
        ensures
            *final(self) == (AccountSession { state: SessionState::Requesting, ..*old(self) }),
            final(self).wf(),
            a is RequestKey,
    {
        self.state = SessionState::Requesting;
        SessionAction::RequestKey
    }

    /// Explicitly closes the session, invalidating the held key.
    pub fn close(&mut self)
        requires
            old(self).wf(),
        ensures
            *final(self) == spec_closed(*old(self)),
            final(self).wf(),
    {
        self.state = SessionState::Closed;
        self.key = None;
    }

    /// Feeds one event into the session. The new state is exactly
    /// `session_next` of the old state and the event, and the returned
    /// action and terminal signal are exactly `session_emit` of them.
    pub fn on_event(&mut self, e: SessionEvent) -> (r: (SessionAction, Option<UnitError>))
        requires
            old(self).wf(),
            event_wf(*old(self), e),
        ensures
            *final(self) == session_next(*old(self), e),
            r == session_emit(*old(self), e),
            final(self).wf(),
    {
        proof {
            assert(old(self).renew_interval <= old(self).expiry_window);
        }
        match e {
            SessionEvent::OpenResult { now, result } => {
                if matches!(self.state, SessionState::Requesting) {
                    match result {
                        Ok(token) => {
                            self.state = SessionState::Active;
                            self.last_renewal = now;
                            self.retries_left = MAX_RENEW_RETRIES;
                            self.key = Some(ListenKey {
                                token,
                                issued_at: now,
                                renew_by: now + self.renew_interval,
                            });
                            (SessionAction::OpenStream, None)
                        }
                        Err(err) => {
                            self.state = SessionState::Closed;
                            self.key = None;
                            (SessionAction::Idle, Some(err.as_unit_error()))
                        }
                    }
                } else {
                    (SessionAction::Idle, None)
                }
            }
            SessionEvent::Renew { now, result } => {
                match self.state {
                    SessionState::Active => {
                        match result {
                            Ok(_) => {
                                self.renew_key(now);
                                (SessionAction::Idle, None)
                            }
                            Err(err) => {
                                if err.retryable() {
                                    self.state = SessionState::Renewing;
                                    (SessionAction::Idle, None)
                                } else {
                                    self.state = SessionState::Closed;
                                    self.key = None;
                                    (SessionAction::Idle, Some(err.as_unit_error()))
                                }
                            }
                        }
                    }
                    SessionState::Renewing => {
                        match result {
                            Ok(_) => {
                                self.renew_key(now);
                                (SessionAction::Idle, None)
                            }
                            Err(err) => {
                                if !err.retryable() {
                                    self.state = SessionState::Closed;
                                    self.key = None;
                                    (SessionAction::Idle, Some(err.as_unit_error()))
                                } else if self.retries_left == 0 {
                                    self.state = SessionState::Closed;
                                    self.key = None;
                                    (SessionAction::Idle, Some(UnitError::Transport))
                                } else {
                                    self.retries_left = self.retries_left - 1;
                                    (SessionAction::Idle, None)
                                }
                            }
                        }
                    }
                    _ => (SessionAction::Idle, None),
                }
            }
            SessionEvent::StreamClosed => {
                match self.state {
                    SessionState::Active | SessionState::Renewing => {
                        self.state = SessionState::Closed;
                        self.key = None;
                        (SessionAction::Idle, Some(UnitError::ConnectionLost))
                    }
                    _ => (SessionAction::Idle, None),
                }
            }
        }
    }

    /// Applies a successful keep-alive at time `now` to a session holding a
    /// key.
    fn renew_key(&mut self, now: u64)
        requires
            old(self).wf(),
            old(self).state is Active || old(self).state is Renewing,
            old(self).last_renewal <= now,
            now + old(self).expiry_window <= u64::MAX,
        ensures
            *final(self) == spec_renewed(*old(self), now),
            final(self).wf(),
    {
        proof {
            assert(old(self).renew_interval <= old(self).expiry_window);
        }
        match &mut self.key {
            Some(k) => {
                k.renew_by = now + self.renew_interval;
                self.state = SessionState::Active;
                self.last_renewal = now;
                self.retries_left = MAX_RENEW_RETRIES;
            }
            None => {}
        }
    }

    /// Current lifecycle state.
    pub fn current_state(&self) -> (r: SessionState)
        ensures
            r == self.state,
    {
        self.state
    }

    /// The held listen key, while one exists.
    pub fn listen_key(&self) -> (r: &Option<ListenKey>)
        ensures
            r == self.key,
    {
        &self.key
    }
}

/// The event of a renewal timer firing at `now` whose keep-alive call
/// succeeded.
pub open spec fn ok_renew(now: u64) -> SessionEvent {
    SessionEvent::Renew { now, result: Ok(()) }
}

/// The renewal timer discipline: the timer fires within one renewal
/// interval of the last successful renewal, and time does not run backwards.
pub open spec fn timely(s: AccountSession, now: u64) -> bool {
    s.last_renewal <= now && now - s.last_renewal <= s.renew_interval
}

/// While the session is active, a timely renewal always observes the key
/// strictly inside the expiry window and no later than its renewal
/// deadline: the private connection never sees an expired key.
pub proof fn lemma_key_fresh_at_renewal(s: AccountSession, now: u64)
    requires
        s.wf(),
        s.state is Active,
        timely(s, now),
    ensures
        s.key_age(now) <= s.renew_interval,
        s.key_age(now) < s.expiry_window,
        now <= s.key->Some_0.renew_by,
{
}

/// A fault-free renewal schedule starting from session `s`: every fire time
/// respects the timer discipline of the state the session has reached by
/// then, and stays clear of the numeric limit.
pub open spec fn timely_schedule(s: AccountSession, fires: Seq<u64>) -> bool
    decreases fires.len(),
{
    fires.len() == 0 || {
        &&& timely(s, fires[0])
        &&& fires[0] + s.expiry_window <= u64::MAX
        &&& timely_schedule(session_next(s, ok_renew(fires[0])), fires.drop_first())
    }
}

/// The session after a fault-free renewal at each time in `fires`, in order.
pub open spec fn run_renewals(s: AccountSession, fires: Seq<u64>) -> AccountSession
    decreases fires.len(),
{
    if fires.len() == 0 {
        s
    } else {
        run_renewals(session_next(s, ok_renew(fires[0])), fires.drop_first())
    }
}

/// Listen-key liveness: under a fault-free REST client whose renewal timer
/// fires within one renewal interval of each successful renewal, an active
/// session stays active forever, and at every fire time the key's age is
/// below the exchange expiry window — the key is never observed expired.
pub proof fn lemma_renewal_trace_fresh(s: AccountSession, fires: Seq<u64>)
    requires
        s.wf(),
        s.state is Active,
        timely_schedule(s, fires),
    ensures
        run_renewals(s, fires).wf(),
        run_renewals(s, fires).state is Active,
        run_renewals(s, fires).renew_interval == s.renew_interval,
        run_renewals(s, fires).expiry_window == s.expiry_window,
        forall|i: int| 0 <= i < fires.len() ==>
            run_renewals(s, #[trigger] fires.take(i)).key_age(fires[i]) < s.expiry_window,
    decreases fires.len(),
{
    if fires.len() > 0 {
        let s1 = session_next(s, ok_renew(fires[0]));
        assert(s.key is Some);
        assert(s.renew_interval <= s.expiry_window);
        assert(s1 == spec_renewed(s, fires[0]));
        assert(s1.wf());
        lemma_renewal_trace_fresh(s1, fires.drop_first());
        assert forall|i: int| 0 <= i < fires.len() implies
            run_renewals(s, #[trigger] fires.take(i)).key_age(fires[i]) < s.expiry_window by {
            if i == 0 {
                assert(fires.take(0).len() == 0);
                assert(run_renewals(s, fires.take(0)) == s);
                lemma_key_fresh_at_renewal(s, fires[0]);
            } else {
                let rest = fires.drop_first();
                assert(fires.take(i).len() == i);
                assert(fires.take(i)[0] == fires[0]);
                assert(fires.take(i).drop_first() =~= rest.take(i - 1));
                assert(run_renewals(s, fires.take(i))
                    == run_renewals(s1, rest.take(i - 1)));
                assert(run_renewals(s1, rest.take(i - 1)).key_age(rest[i - 1])
                    < s1.expiry_window);
                assert(rest[i - 1] == fires[i]);
            }
        }
    }
}

} // verus!
