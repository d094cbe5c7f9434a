//! Session supervisor: fail-fast over the three concurrent units.
//!
//! The supervisor owns the market feed, the account session and the trade
//! engine. The surrounding process launches them concurrently and reports
//! each termination back; the supervisor decides. The policy is fail-fast,
//! chosen deliberately: a trading process with only two of three live
//! subsystems risks acting on stale account state, so the first unit to
//! stop — normally or with an error — settles the whole session, the other
//! units are cancelled in that same step, and the first unit's error (if
//! any) becomes the supervisor's result. No restart is attempted here; a
//! restart-with-backoff policy would replace this module, not creep into
//! the units.

use vstd::prelude::*;
use crate::errors::UnitError;

verus! {

/// The three units the supervisor owns.
#[derive(Debug, Clone, Copy, PartialEq, Eq, Structural)]
pub enum UnitId {
    /// The public market-data feed.
    MarketFeed,
    /// The private account stream with its listen key.
    AccountSession,
    /// The order-placing trade engine.
    TradeEngine,
}

impl UnitId {
    /// A short stable name of the unit, for log context.
    pub fn unit_name(self) -> (r: &'static str)
        ensures
            self is MarketFeed ==> r@ == "market_feed"@,
            self is AccountSession ==> r@ == "account_session"@,
            self is TradeEngine ==> r@ == "trade_engine"@,
    {
        match self {
            UnitId::MarketFeed => "market_feed",
            UnitId::AccountSession => "account_session",
            UnitId::TradeEngine => "trade_engine",
        }
    }
}

/// The supervisor's terminal error: which unit failed, and how.
#[derive(Debug, Clone, Copy, PartialEq, Eq, Structural)]
pub struct SupervisorError {
    /// The unit whose failure ended the session.
    pub unit: UnitId,
    /// The failure it reported.
    pub error: UnitError,
}

/// What the supervisor has heard of one unit.
#[derive(Debug, Clone, Copy, PartialEq, Eq)]
pub enum UnitStatus {
    /// Still running, as far as reported.
    Running,
    /// Terminated, normally (no error) or with the given error.
    Stopped { error: Option<UnitError> },
}

/// One reported unit termination.
#[derive(Debug, Clone, Copy, PartialEq, Eq)]
pub struct UnitExit {
    /// The unit that terminated.
    pub unit: UnitId,
    /// Its error, if it failed.
    pub error: Option<UnitError>,
}

/// The supervisor's decision on one reported termination.
#[derive(Debug, Clone, Copy, PartialEq, Eq)]
pub enum SupervisorDecision {
    /// First termination: cancel the flagged units now and finish the
    /// session with this result.
    Finish {
        /// Cancel the market feed.
        cancel_market: bool,
        /// Cancel the account session.
        cancel_account: bool,
        /// Cancel the trade engine.
        cancel_trade: bool,
        /// The session's result: the terminated unit's own.
        result: Result<(), SupervisorError>,
    },
    /// A late report from a unit already cancelled; nothing to do.
    AlreadySettled,
}

/// The supervisor state: what it has heard, and the settled outcome once
/// the first unit terminated.
#[derive(Debug, Clone, Copy)]
pub struct Supervisor {
    /// Status of the market feed.
    pub market: UnitStatus,
    /// Status of the account session.
    pub account: UnitStatus,
    /// Status of the trade engine.
    pub trade: UnitStatus,
    /// The session's result, fixed by the first termination.
    pub outcome: Option<Result<(), SupervisorError>>,
}

impl Supervisor {
    /// The recorded status of one unit.
    pub open spec fn unit_status(self, u: UnitId) -> UnitStatus {
        match u {
            UnitId::MarketFeed => self.market,
            UnitId::AccountSession => self.account,
            UnitId::TradeEngine => self.trade,
        }
    }

    /// No termination reported yet.
    pub open spec fn all_running(self) -> bool {
        &&& self.market is Running
        &&& self.account is Running
        &&& self.trade is Running
    }

    /// The first termination has been seen and the result is fixed.
    pub open spec fn settled(self) -> bool {
        self.outcome is Some
    }

    /// Well-formedness: before the first termination nothing has stopped.
    pub open spec fn wf(self) -> bool {
        self.outcome is None ==> self.all_running()
    }
}

/// The result one unit's termination gives the whole session.
pub open spec fn exit_result(unit: UnitId, error: Option<UnitError>) -> Result<(), SupervisorError> {
    match error {
        Some(e) => Err(SupervisorError { unit, error: e }),
        None => Ok(()),
    }
}

/// `s` with the status of `u` replaced.
pub open spec fn with_unit_status(s: Supervisor, u: UnitId, st: UnitStatus) -> Supervisor {
    match u {
        UnitId::MarketFeed => Supervisor { market: st, ..s },
        UnitId::AccountSession => Supervisor { account: st, ..s },
        UnitId::TradeEngine => Supervisor { trade: st, ..s },
    }
}

/// The supervisor after one reported termination: the unit's status is
/// recorded, and the first report settles the outcome; later reports can
/// never change it.
pub open spec fn supervisor_next(s: Supervisor, unit: UnitId, error: Option<UnitError>) -> Supervisor {
    let s1 = with_unit_status(s, unit, UnitStatus::Stopped { error });
    if s.settled() {
        s1
    } else {
        Supervisor { outcome: Some(exit_result(unit, error)), ..s1 }
    }
}

/// The decision on one reported termination: the first report cancels
/// exactly the other two units and finishes with the reporting unit's
/// result; on a settled supervisor nothing is asked of anyone.
pub open spec fn supervisor_emit(s: Supervisor, unit: UnitId, error: Option<UnitError>) -> SupervisorDecision {
    if s.settled() {
        SupervisorDecision::AlreadySettled
    } else {
        SupervisorDecision::Finish {
            cancel_market: !(unit is MarketFeed),
            cancel_account: !(unit is AccountSession),
            cancel_trade: !(unit is TradeEngine),
            result: exit_result(unit, error),
        }
    }
}

impl Supervisor {
    /// The supervisor right after launching all three units.
    pub fn new() -> (r: Supervisor)
        ensures
            r == (Supervisor {
                market: UnitStatus::Running,
                account: UnitStatus::Running,
                trade: UnitStatus::Running,
                outcome: None,
            }),
            r.wf(),
    {
        Supervisor {
            market: UnitStatus::Running,
            account: UnitStatus::Running,
            trade: UnitStatus::Running,
            outcome: None,
        }
    }

    /// Takes one reported unit termination and decides: the first report
    /// settles the session with that unit's result and cancels the other
    /// units in the same step; every later report is absorbed unchanged.
    pub fn on_unit_exit(&mut self, unit: UnitId, error: Option<UnitError>) -> (r: SupervisorDecision)
        requires
            old(self).wf(),
        ensures
            *final(self) == supervisor_next(*old(self), unit, error),
            r == supervisor_emit(*old(self), unit, error),
            final(self).wf(),
            final(self).settled(),
    {
        let was_settled = matches!(self.outcome, Some(_));
        match unit {
            UnitId::MarketFeed => {
                self.market = UnitStatus::Stopped { error };
            }
            UnitId::AccountSession => {
                self.account = UnitStatus::Stopped { error };
            }
            UnitId::TradeEngine => {
                self.trade = UnitStatus::Stopped { error };
            }
        }
        if was_settled {
            SupervisorDecision::AlreadySettled
        } else {
            let result = match error {
                Some(e) => Err(SupervisorError { unit, error: e }),
                None => Ok(()),
            };
            self.outcome = Some(result);
            SupervisorDecision::Finish {
                cancel_market: !matches!(unit, UnitId::MarketFeed),
                cancel_account: !matches!(unit, UnitId::AccountSession),
                cancel_trade: !matches!(unit, UnitId::TradeEngine),
                result,
            }
        }
    }

    /// The settled result, once the first unit terminated.
    pub fn result(&self) -> (r: Option<Result<(), SupervisorError>>)
        ensures
            r == self.outcome,
    {
        self.outcome
    }

    /// Runs the session over a recorded sequence of unit terminations, in
    /// arrival order: per fail-fast the session's result is exactly the
    /// first termination's, whatever follows.
    pub fn run_trace(&mut self, exits: &Vec<UnitExit>) -> (r: Result<(), SupervisorError>)
        requires
            old(self).wf(),
            !old(self).settled(),
            exits@.len() > 0,
        ensures
            r == exit_result(exits@[0].unit, exits@[0].error),
            final(self).settled(),
            final(self).outcome == Some(exit_result(exits@[0].unit, exits@[0].error)),
    {
        let first = exits[0];
        let decision = self.on_unit_exit(first.unit, first.error);
        let result = match decision {
            SupervisorDecision::Finish { result, .. } => result,
            SupervisorDecision::AlreadySettled => {
                proof {
                    assert(false);
                }
                Ok(())
            }
        };
        let mut i: usize = 1;
        while i < exits.len()
            invariant
                self.settled(),
                self.wf(),
                self.outcome == Some(exit_result(exits@[0].unit, exits@[0].error)),
                result == exit_result(exits@[0].unit, exits@[0].error),
            decreases exits@.len() - i,
        {
            let next = exits[i];
            let _ = self.on_unit_exit(next.unit, next.error);
            i = i + 1;
        }
        result
    }
}

/// Fail-fast liveness: a unit failing while the session is live settles
/// the supervisor in that very step — the outcome is fixed to that unit's
/// error, and both remaining units are cancelled in the same step, so the
/// session's `run` returns without waiting on anything further.
pub proof fn lemma_fail_fast(s: Supervisor, unit: UnitId, e: UnitError)
    requires
        s.wf(),
        !s.settled(),
    ensures
        supervisor_next(s, unit, Some(e)).settled(),
        supervisor_next(s, unit, Some(e)).outcome
            == Some(Err::<(), SupervisorError>(SupervisorError { unit, error: e })),
        supervisor_emit(s, unit, Some(e)) == (SupervisorDecision::Finish {
            cancel_market: !(unit is MarketFeed),
            cancel_account: !(unit is AccountSession),
            cancel_trade: !(unit is TradeEngine),
            result: Err(SupervisorError { unit, error: e }),
        }),
{
}

/// Stability after settling: once the first termination fixed the outcome,
/// later reports change nothing and ask for nothing — in particular no
/// order action is ever requested again on behalf of a stale session.
pub proof fn lemma_settled_stable(s: Supervisor, unit: UnitId, error: Option<UnitError>)
    requires
        s.settled(),
    ensures
        supervisor_next(s, unit, error).outcome == s.outcome,
        supervisor_next(s, unit, error).settled(),
        supervisor_emit(s, unit, error) is AlreadySettled,
{
}

} // verus!
