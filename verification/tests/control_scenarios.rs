//! Scenario tests driving the control loop's outcome handling, the
//! pending-operation wait, and the limits negotiator.

use migration_bot::control::{
    pending_poll_step, ControlLoop, IterationOutcome, LoopDecision, PendingWaitStep,
    MAX_CONSECUTIVE_ERRORS, PENDING_TX_TIMEOUT_ITERATIONS,
};
use migration_bot::error::MigrationError;
use migration_bot::limits::{
    resolve_limits, size_upper_bound, LimitsAction, OperationLimits, DEFAULT_ITEM_LIMIT,
    DEFAULT_SIZE_LIMIT,
};

#[test]
fn test_five_consecutive_failures_abort_with_count_and_last_message() {
    // Five consecutive non-recoverable failures with a ceiling of five:
    // the loop aborts with the count and the last failure's text.
    let mut c = ControlLoop::new(MAX_CONSECUTIVE_ERRORS, 0, false);
    for i in 0..4u32 {
        let d = c.handle_outcome(IterationOutcome::Failed(MigrationError::SubmissionFailed(
            format!("fault {}", i),
        )));
        assert_eq!(d, LoopDecision::WaitRetry);
        assert_eq!(c.consecutive_errors, i + 1);
    }
    let d = c.handle_outcome(IterationOutcome::Failed(MigrationError::SubmissionFailed(
        "fault 4".to_string(),
    )));
    match d {
        LoopDecision::Abort(MigrationError::TooManyErrors { count, last_error }) => {
            assert_eq!(count, 5);
            assert_eq!(last_error, "Transaction submission failed: fault 4");
        }
        other => panic!("expected a too-many-errors abort, got {:?}", other),
    }
}

#[test]
fn test_balance_loss_aborts_regardless_of_remaining_runs() {
    // A balance lower after a reported success aborts at once, even with
    // runs remaining before the configured target.
    let mut c = ControlLoop::new(5, 10, false);
    let d = c.handle_outcome(IterationOutcome::Succeeded {
        balance_before: 2_000_000_000_000,
        balance_after: 1_000_000_000_000,
    });
    assert_eq!(
        d,
        LoopDecision::Abort(MigrationError::BalanceDecreased {
            lost_units: 1_000_000_000_000
        })
    );
}

#[test]
fn test_success_resets_counter_and_continues() {
    let mut c = ControlLoop::new(5, 0, false);
    c.handle_outcome(IterationOutcome::Failed(MigrationError::SubmissionFailed(
        "x".to_string(),
    )));
    assert_eq!(c.consecutive_errors, 1);
    let d = c.handle_outcome(IterationOutcome::Succeeded {
        balance_before: 100,
        balance_after: 100,
    });
    assert_eq!(d, LoopDecision::Continue);
    assert_eq!(c.consecutive_errors, 0);
    assert_eq!(c.successful_runs, 1);
}

#[test]
fn test_target_runs_reached_stops() {
    let mut c = ControlLoop::new(5, 2, false);
    let d = c.handle_outcome(IterationOutcome::Succeeded {
        balance_before: 0,
        balance_after: 0,
    });
    assert_eq!(d, LoopDecision::Continue);
    let d = c.handle_outcome(IterationOutcome::Succeeded {
        balance_before: 0,
        balance_after: 0,
    });
    assert_eq!(d, LoopDecision::Stop);
    assert_eq!(c.successful_runs, 2);
}

#[test]
fn test_pool_wait_and_banned_reset_counter() {
    let mut c = ControlLoop::new(5, 0, false);
    c.handle_outcome(IterationOutcome::Failed(MigrationError::SubmissionFailed(
        "x".to_string(),
    )));
    assert_eq!(c.consecutive_errors, 1);
    let d = c.handle_outcome(IterationOutcome::Failed(MigrationError::PoolConflict));
    assert_eq!(d, LoopDecision::WaitForPool);
    assert_eq!(c.consecutive_errors, 0);

    c.handle_outcome(IterationOutcome::Failed(MigrationError::SubmissionFailed(
        "x".to_string(),
    )));
    let d = c.handle_outcome(IterationOutcome::Failed(MigrationError::TxBanned));
    assert_eq!(d, LoopDecision::WaitBanned);
    assert_eq!(c.consecutive_errors, 0);
}

#[test]
fn test_recoverable_failure_waits_without_counting() {
    let mut c = ControlLoop::new(5, 0, false);
    let d = c.handle_outcome(IterationOutcome::Failed(MigrationError::RpcError(
        "io".to_string(),
    )));
    assert_eq!(d, LoopDecision::WaitRetry);
    assert_eq!(c.consecutive_errors, 0);
}

#[test]
fn test_complete_stops_and_unavailable_status_continues() {
    let mut c = ControlLoop::new(5, 0, false);
    assert_eq!(
        c.handle_outcome(IterationOutcome::MigrationComplete),
        LoopDecision::Stop
    );
    assert_eq!(
        c.handle_outcome(IterationOutcome::StatusUnavailable),
        LoopDecision::Continue
    );
    let mut once = ControlLoop::new(5, 0, true);
    assert_eq!(
        once.handle_outcome(IterationOutcome::StatusUnavailable),
        LoopDecision::Stop
    );
    assert!(!once.continues_after_iteration());
    assert!(c.continues_after_iteration());
}

#[test]
fn test_pending_poll_steps() {
    // The nonce moved: the blocking operation cleared.
    assert_eq!(
        pending_poll_step(5, Some(6), 0, PENDING_TX_TIMEOUT_ITERATIONS),
        PendingWaitStep::Cleared
    );
    // Unchanged nonce: keep polling while budget remains.
    assert_eq!(
        pending_poll_step(5, Some(5), 0, PENDING_TX_TIMEOUT_ITERATIONS),
        PendingWaitStep::KeepPolling
    );
    // A failed read keeps polling too.
    assert_eq!(
        pending_poll_step(5, None, 3, PENDING_TX_TIMEOUT_ITERATIONS),
        PendingWaitStep::KeepPolling
    );
    // The last poll of the budget gives up and proceeds.
    assert_eq!(
        pending_poll_step(
            5,
            Some(5),
            PENDING_TX_TIMEOUT_ITERATIONS - 1,
            PENDING_TX_TIMEOUT_ITERATIONS
        ),
        PendingWaitStep::GiveUp
    );
}

#[test]
fn test_limits_auto_uses_half_of_chain_max() {
    let requested = OperationLimits {
        size_limit: 0,
        item_limit: 0,
    };
    let (eff, action) = resolve_limits(requested, Some((65536, 1024)));
    assert_eq!(eff.size_limit, 32768);
    assert_eq!(eff.item_limit, 512);
    assert_eq!(action, LimitsAction::UseExisting);
}

#[test]
fn test_limits_explicit_request_kept() {
    let requested = OperationLimits {
        size_limit: 1000,
        item_limit: 100,
    };
    let (eff, action) = resolve_limits(requested, Some((65536, 1024)));
    assert_eq!(eff.size_limit, 1000);
    assert_eq!(eff.item_limit, 100);
    assert_eq!(action, LimitsAction::UseExisting);
}

#[test]
fn test_limits_request_over_chain_max_raises_ceiling() {
    let requested = OperationLimits {
        size_limit: 100_000,
        item_limit: 2048,
    };
    let (eff, action) = resolve_limits(requested, Some((65536, 1024)));
    assert_eq!(eff.size_limit, 100_000);
    assert_eq!(eff.item_limit, 2048);
    assert_eq!(action, LimitsAction::RaiseCeiling);
}

#[test]
fn test_limits_no_chain_max_uses_defaults_and_sets_them() {
    let requested = OperationLimits {
        size_limit: 0,
        item_limit: 0,
    };
    let (eff, action) = resolve_limits(requested, None);
    assert_eq!(eff.size_limit, DEFAULT_SIZE_LIMIT);
    assert_eq!(eff.item_limit, DEFAULT_ITEM_LIMIT);
    assert_eq!(eff.size_limit, 409600);
    assert_eq!(eff.item_limit, 4096);
    assert_eq!(action, LimitsAction::RaiseCeiling);
}

#[test]
fn test_size_upper_bound_is_twice_the_limit() {
    assert_eq!(size_upper_bound(0), 0);
    assert_eq!(size_upper_bound(409600), 819200);
    assert_eq!(size_upper_bound(u32::MAX), 2 * (u32::MAX as u64));
}
