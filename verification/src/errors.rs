//! Error taxonomy shared by the session, engine and supervisor.
//!
//! Each kind carries its retry policy: transport faults and server errors may
//! be retried, rate limiting is retried only after backing off, and a
//! credential rejection is never retried.

use vstd::prelude::*;

verus! {

/// Outcome kinds of one authenticated REST call, as the signed REST client
/// reports them to the caller.
#[derive(Debug, Clone, Copy, PartialEq, Eq, Structural)]
pub enum RestError {
    /// The call did not complete within its bounded timeout.
    Timeout,
    /// The exchange rejected the request's credentials or signature.
    AuthRejected,
    /// The exchange refused the call because of request-rate limits.
    RateLimited,
    /// The exchange answered with a server-side failure.
    ServerError,
}

/// Terminal error of one supervised unit, surfaced to the supervisor.
#[derive(Debug, Clone, Copy, PartialEq, Eq, Structural)]
pub enum UnitError {
    /// Network failure or timeout; transient in nature.
    Transport,
    /// Credential rejection; never retried.
    Auth,
    /// Malformed or unexpected message on a stream.
    Protocol,
    /// A websocket connection closed underneath the unit.
    ConnectionLost,
    /// An order action still failed after its bounded retries.
    OrderActionFailed,
}

impl RestError {
    /// Whether a call that failed this way may be attempted again at all.
    pub open spec fn spec_retryable(self) -> bool {
        match self {
            RestError::Timeout => true,
            RestError::AuthRejected => false,
            RestError::RateLimited => true,
            RestError::ServerError => true,
        }
    }

    /// Whether a retry of a call that failed this way must first back off.
    pub open spec fn spec_needs_backoff(self) -> bool {
        self is RateLimited
    }

    /// Retry policy of this error kind: retryable unless the credentials
    /// themselves were rejected.
    pub fn retryable(self) -> (r: bool)
        ensures
            r == self.spec_retryable(),
    {
        match self {
            RestError::Timeout => true,
            RestError::AuthRejected => false,
            RestError::RateLimited => true,
            RestError::ServerError => true,
        }
    }

    /// Whether a retry must back off first; true exactly for rate limiting.
    pub fn needs_backoff(self) -> (r: bool)
        ensures
            r == self.spec_needs_backoff(),
    {
        match self {
            RestError::RateLimited => true,
            _ => false,
        }
    }

    /// The terminal unit error that a REST failure turns into once no retry
    /// is possible: a credential rejection is an authentication failure,
    /// everything else a transport failure.
    pub open spec fn spec_as_unit_error(self) -> UnitError {
        if self is AuthRejected {
            UnitError::Auth
        } else {
            UnitError::Transport
        }
    }

    /// Maps this REST failure to the unit error it surfaces as.
    pub fn as_unit_error(self) -> (r: UnitError)
        ensures
            r == self.spec_as_unit_error(),
    {
        match self {
            RestError::AuthRejected => UnitError::Auth,
            _ => UnitError::Transport,
        }
    }

    /// A short stable name of this kind, for log context.
    pub fn kind_name(self) -> (r: &'static str)
        ensures
            self is Timeout ==> r@ == "timeout"@,
            self is AuthRejected ==> r@ == "auth_rejected"@,
            self is RateLimited ==> r@ == "rate_limited"@,
            self is ServerError ==> r@ == "server_error"@,
    {
        match self {
            RestError::Timeout => "timeout",
            RestError::AuthRejected => "auth_rejected",
            RestError::RateLimited => "rate_limited",
            RestError::ServerError => "server_error",
        }
    }
}

impl UnitError {
    /// A short stable name of this kind, for log context.
    pub fn kind_name(self) -> (r: &'static str)
        ensures
            self is Transport ==> r@ == "transport"@,
            self is Auth ==> r@ == "auth"@,
            self is Protocol ==> r@ == "protocol"@,
            self is ConnectionLost ==> r@ == "connection_lost"@,
            self is OrderActionFailed ==> r@ == "order_action_failed"@,
    {
        match self {
            UnitError::Transport => "transport",
            UnitError::Auth => "auth",
            UnitError::Protocol => "protocol",
            UnitError::ConnectionLost => "connection_lost",
            UnitError::OrderActionFailed => "order_action_failed",
        }
    }
}

} // verus!
