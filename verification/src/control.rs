//! The migration control loop: outcome handling, retry policy, and the
//! pending-operation wait.
//!
//! Each iteration polls the remote status, stops when the migration is
//! complete, otherwise submits one operation and hands the outcome here. The
//! policy: a balance loss after a reported success aborts at once, whatever
//! run count remains; pool-wait and banned failures reset the consecutive
//! failure counter and wait; other recoverable failures wait without
//! counting; non-recoverable failures count toward a configured ceiling, at
//! which the loop aborts carrying the count and the last failure's text.

use vstd::prelude::*;

use crate::error::{spec_error_message, spec_is_recoverable, spec_requires_pool_wait,
    MigrationError};

verus! {

/// Seconds per block: the cadence of the pending-operation poll.
pub const BLOCK_TIME_SECS: u64 = 6;

/// How many block-cadence polls the pending-operation wait makes before it
/// proceeds anyway.
pub const PENDING_TX_TIMEOUT_ITERATIONS: u32 = 20;

/// Fallback wait when the account nonce cannot be read at all.
pub const NONCE_RETRY_WAIT_SECS: u64 = 30;

/// Short wait before retrying a failed iteration.
pub const RETRY_WAIT_SECS: u64 = 12;

/// Longer wait while an operation is temporarily banned from the pool.
pub const BANNED_TX_WAIT_SECS: u64 = 60;

/// The default ceiling on consecutive non-recoverable failures.
pub const MAX_CONSECUTIVE_ERRORS: u32 = 5;

/// What one loop iteration reported.
#[derive(Debug, Clone, PartialEq, Eq)]
pub enum IterationOutcome {
    /// The remote progress could not be fetched: a transient fault, not a
    /// failure.
    StatusUnavailable,
    /// The remote migration is complete.
    MigrationComplete,
    /// A submission attempt reported success; the account balance recorded
    /// before and after it, in raw units.
    Succeeded { balance_before: u128, balance_after: u128 },
    /// A submission attempt failed with this error.
    Failed(MigrationError),
}

/// What the loop does next.
#[derive(Debug, Clone, PartialEq, Eq)]
pub enum LoopDecision {
    /// Stop normally: complete, a single-run flag, or the run target met.
    Stop,
    /// Go on to the next iteration (after any configured delay).
    Continue,
    /// Poll the account nonce at block cadence until the blocking operation
    /// clears, then go on.
    WaitForPool,
    /// Wait the longer banned-operation interval, then go on.
    WaitBanned,
    /// Wait the short retry interval, then go on.
    WaitRetry,
    /// Stop at once with this fatal error.
    Abort(MigrationError),
}

/// The control loop's mutable state and configuration.
pub struct ControlLoop {
    /// Consecutive non-recoverable failures so far; always below the
    /// ceiling.
    pub consecutive_errors: u32,
    /// The ceiling at which the loop aborts (at least one).
    pub max_consecutive_errors: u32,
    /// Submissions reported successful so far.
    pub successful_runs: u32,
    /// Stop after this many successes; zero means unlimited.
    pub target_runs: u32,
    /// Stop after one completed iteration.
    pub once: bool,
}

/// The decision after a success with no balance loss, over the updated
/// state: stop when a run target or the single-run flag says so, else go on.
pub open spec fn spec_success_decision(post: ControlLoop) -> LoopDecision {
    if post.target_runs > 0 && post.successful_runs >= post.target_runs {
        LoopDecision::Stop
    } else if post.once {
        LoopDecision::Stop
    } else {
        LoopDecision::Continue
    }
}

impl ControlLoop {
    /// A fresh loop: no failures, no successes yet.
    pub fn new(max_consecutive_errors: u32, target_runs: u32, once: bool) -> (r: ControlLoop)
        requires
            max_consecutive_errors >= 1,
        ensures
            r == (ControlLoop {
                consecutive_errors: 0,
                max_consecutive_errors,
                successful_runs: 0,
                target_runs,
                once,
            }),
    {
        ControlLoop {
            consecutive_errors: 0,
            max_consecutive_errors,
            successful_runs: 0,
            target_runs,
            once,
        }
    }

    /// Handles one iteration's outcome and decides what the loop does next.
    ///
    /// On success the run counter rises (saturating) and the balance is
    /// re-checked: any loss aborts at once with `BalanceDecreased`, whatever
    /// run count remains; otherwise the failure counter resets and the loop
    /// stops when the run target or the single-run flag is met. A pool-wait
    /// failure resets the counter and waits for the pool; a banned operation
    /// resets it and waits longer; any other recoverable failure waits
    /// without counting. A non-recoverable failure raises the counter and,
    /// at the ceiling, aborts with `TooManyErrors` carrying the count and
    /// the failure's text.
    pub fn handle_outcome(&mut self, outcome: IterationOutcome) -> (d: LoopDecision)
        requires
            old(self).consecutive_errors < old(self).max_consecutive_errors,
        ensures
            final(self).max_consecutive_errors == old(self).max_consecutive_errors,
            final(self).target_runs == old(self).target_runs,
            final(self).once == old(self).once,
            match outcome {
                IterationOutcome::StatusUnavailable => {
                    &&& *final(self) == *old(self)
                    &&& d == if old(self).once {
                        LoopDecision::Stop
                    } else {
                        LoopDecision::Continue
                    }
                },
                IterationOutcome::MigrationComplete => {
                    &&& *final(self) == *old(self)
                    &&& d == LoopDecision::Stop
                },
                IterationOutcome::Succeeded { balance_before, balance_after } => {
                    &&& final(self).successful_runs == if old(self).successful_runs < u32::MAX {
                        old(self).successful_runs + 1
                    } else {
                        old(self).successful_runs as int
                    }
                    &&& if balance_after < balance_before {
                        &&& final(self).consecutive_errors == old(self).consecutive_errors
                        &&& d == LoopDecision::Abort(
                            MigrationError::BalanceDecreased {
                                lost_units: (balance_before - balance_after) as u128,
                            },
                        )
                    } else {
                        &&& final(self).consecutive_errors == 0
                        &&& d == spec_success_decision(*final(self))
                    }
                },
                IterationOutcome::Failed(e) => {
                    &&& final(self).successful_runs == old(self).successful_runs
                    &&& if spec_requires_pool_wait(e.model()) {
                        &&& final(self).consecutive_errors == 0
                        &&& d == LoopDecision::WaitForPool
                    } else if e == MigrationError::TxBanned {
                        &&& final(self).consecutive_errors == 0
                        &&& d == LoopDecision::WaitBanned
                    } else if spec_is_recoverable(e.model()) {
                        &&& final(self).consecutive_errors == old(self).consecutive_errors
                        &&& d == LoopDecision::WaitRetry
                    } else if old(self).consecutive_errors + 1 >= old(
                        self,
                    ).max_consecutive_errors {
                        &&& final(self).consecutive_errors == old(self).consecutive_errors + 1
                        &&& d is Abort
                        &&& d->Abort_0.model() == crate::error::ErrorModel::TooManyErrors {
                            count: old(self).consecutive_errors + 1,
                            last_error: spec_error_message(e.model()),
                        }
                    } else {
                        &&& final(self).consecutive_errors == old(self).consecutive_errors + 1
                        &&& final(self).consecutive_errors < final(self).max_consecutive_errors
                        &&& d == LoopDecision::WaitRetry
                    }
                },
            },
    {
        match outcome {
            IterationOutcome::StatusUnavailable => {
                if self.once {
                    LoopDecision::Stop
                } else {
                    LoopDecision::Continue
                }
            },
            IterationOutcome::MigrationComplete => LoopDecision::Stop,
            IterationOutcome::Succeeded { balance_before, balance_after } => {
                if self.successful_runs < u32::MAX {
                    self.successful_runs = self.successful_runs + 1;
                }
                if balance_after < balance_before {
                    LoopDecision::Abort(
                        MigrationError::BalanceDecreased {
                            lost_units: balance_before - balance_after,
                        },
                    )
                } else {
                    self.consecutive_errors = 0;
                    if self.target_runs > 0 && self.successful_runs >= self.target_runs {
                        LoopDecision::Stop
                    } else if self.once {
                        LoopDecision::Stop
                    } else {
                        LoopDecision::Continue
                    }
                }
            },
            IterationOutcome::Failed(e) => {
                if e.requires_pool_wait() {
                    self.consecutive_errors = 0;
                    LoopDecision::WaitForPool
                } else if matches!(e, MigrationError::TxBanned) {
                    self.consecutive_errors = 0;
                    LoopDecision::WaitBanned
                } else if e.is_recoverable() {
                    LoopDecision::WaitRetry
                } else {
                    self.consecutive_errors = self.consecutive_errors + 1;
                    if self.consecutive_errors >= self.max_consecutive_errors {
                        let last_error = e.message();
                        LoopDecision::Abort(
                            MigrationError::TooManyErrors {
                                count: self.consecutive_errors,
                                last_error,
                            },
                        )
                    } else {
                        LoopDecision::WaitRetry
                    }
                }
            },
        }
    }

    /// Does the loop go on after a completed, non-aborting iteration? False
    /// exactly under the single-run flag.
    pub fn continues_after_iteration(&self) -> (r: bool)
        ensures
            r == !self.once,
    {
        !self.once
    }
}

/// One step of the pending-operation wait.
#[derive(Debug, Clone, Copy, PartialEq, Eq, Structural)]
pub enum PendingWaitStep {
    /// The nonce moved: the blocking operation cleared; stop waiting.
    Cleared,
    /// Keep polling at block cadence.
    KeepPolling,
    /// The poll budget is spent; proceed anyway.
    GiveUp,
}

/// Decides one poll of the pending-operation wait: any observed nonce other
/// than the baseline means the blocking operation cleared; a failed read
/// keeps polling; the budget's end gives up and proceeds.
pub fn pending_poll_step(
    initial_nonce: u32,
    observed: Option<u32>,
    polls_done: u32,
    max_polls: u32,
) -> (r: PendingWaitStep)
    requires
        polls_done < max_polls,
    ensures
        r == (match observed {
            Some(n) => if n != initial_nonce {
                PendingWaitStep::Cleared
            } else if polls_done + 1 >= max_polls {
                PendingWaitStep::GiveUp
            } else {
                PendingWaitStep::KeepPolling
            },
            None => if polls_done + 1 >= max_polls {
                PendingWaitStep::GiveUp
            } else {
                PendingWaitStep::KeepPolling
            },
        }),
{
    match observed {
        Some(n) if n != initial_nonce => PendingWaitStep::Cleared,
        _ => {
            if polls_done + 1 >= max_polls {
                PendingWaitStep::GiveUp
            } else {
                PendingWaitStep::KeepPolling
            }
        },
    }
}

} // verus!
