//! Scenario tests driving the submission pipeline's state machine.

use migration_bot::error::MigrationError;
use migration_bot::pipeline::{
    DryRunOutcome, PipelineState, StreamEvent, SubmissionPipeline, MAX_DRY_RUN_ATTEMPTS,
};
use migration_bot::validity::ValidityError;

#[test]
fn test_stale_dry_run_retries_then_reports_mapped_error() {
    // Attempt 1 of 3: stale-nonce validity rejection -> re-sign and retry.
    let mut p = SubmissionPipeline::new(MAX_DRY_RUN_ATTEMPTS, true, false, 10);
    assert_eq!(p.state, PipelineState::DryRunning);

    // 0x01 Err marker, 0x00 Invalid, 0x03 Stale
    p.on_dry_run_outcome(DryRunOutcome::ValidityRejection(vec![0x01, 0x00, 0x03]));
    assert_eq!(p.state, PipelineState::DryRunning);
    assert_eq!(p.attempt, 1);

    // Attempt 2: a non-stale rejection (payment) -> stop retrying, report
    // the mapped error.
    p.on_dry_run_outcome(DryRunOutcome::ValidityRejection(vec![0x01, 0x00, 0x01]));
    assert_eq!(
        p.state,
        PipelineState::Failed(MigrationError::ValidityError(ValidityError::Payment))
    );
}

#[test]
fn test_stale_dry_run_exhausts_attempts() {
    // Stale rejections on every attempt: the bound caps retries and the
    // last one reports the stale-nonce kind.
    let mut p = SubmissionPipeline::new(3, true, false, 0);
    p.on_dry_run_outcome(DryRunOutcome::ValidityRejection(vec![0x01, 0x00, 0x03]));
    assert_eq!(p.attempt, 1);
    p.on_dry_run_outcome(DryRunOutcome::ValidityRejection(vec![0x01, 0x00, 0x03]));
    assert_eq!(p.attempt, 2);
    p.on_dry_run_outcome(DryRunOutcome::ValidityRejection(vec![0x01, 0x00, 0x03]));
    assert_eq!(p.state, PipelineState::Failed(MigrationError::NonceStale));
}

#[test]
fn test_included_then_stream_ends_nonce_advanced_is_success() {
    // The stream emits a best-block inclusion, then ends without a
    // finalization event; the nonce advanced past the baseline, so the
    // pipeline reports success.
    let mut p = SubmissionPipeline::new(3, true, false, 41);
    p.on_dry_run_outcome(DryRunOutcome::Approved);
    assert_eq!(p.state, PipelineState::ReadyToSubmit);
    p.on_validated();
    assert_eq!(p.state, PipelineState::Submitting);
    p.on_submitted();
    assert_eq!(p.state, PipelineState::Watching);

    p.on_stream_event(false, Some(StreamEvent::InBestBlock));
    assert_eq!(p.state, PipelineState::Watching);
    assert!(p.included);

    p.on_stream_event(false, None);
    assert_eq!(p.state, PipelineState::Reconciling);

    p.on_nonce(42);
    assert_eq!(p.state, PipelineState::Succeeded);
}

#[test]
fn test_timeout_with_unchanged_nonce_is_submission_failure() {
    // No event arrives before the finalization bound and the nonce is
    // unchanged: the pipeline reports a submission failure.
    let mut p = SubmissionPipeline::new(3, true, false, 41);
    p.on_dry_run_outcome(DryRunOutcome::Approved);
    p.on_validated();
    p.on_submitted();

    p.on_stream_event(true, None);
    assert_eq!(p.state, PipelineState::Reconciling);

    p.on_nonce(41);
    match p.state {
        PipelineState::Failed(MigrationError::SubmissionFailed(m)) => {
            assert!(m.contains("timeout"));
        }
        other => panic!("expected a submission failure, got {:?}", other),
    }
}

#[test]
fn test_size_ceiling_dispatch_error_fails_fast() {
    let mut p = SubmissionPipeline::new(3, true, false, 0);
    p.on_dry_run_outcome(DryRunOutcome::DispatchError(
        "Module(ModuleError { pallet: StateTrieMigration, error: SizeUpperBoundExceeded })"
            .to_string(),
    ));
    assert_eq!(p.state, PipelineState::Failed(MigrationError::SizeExceeded));
}

#[test]
fn test_other_dispatch_error_fails_with_detail() {
    let mut p = SubmissionPipeline::new(3, true, false, 0);
    p.on_dry_run_outcome(DryRunOutcome::DispatchError("BadOrigin".to_string()));
    assert_eq!(
        p.state,
        PipelineState::Failed(MigrationError::DryRunDispatchError("BadOrigin".to_string()))
    );
}

#[test]
fn test_unavailable_dry_run_disables_and_proceeds() {
    let mut p = SubmissionPipeline::new(3, true, false, 0);
    p.on_dry_run_outcome(DryRunOutcome::CallFailed(
        "RPC call is unsafe to be called externally".to_string(),
    ));
    assert_eq!(p.state, PipelineState::ReadyToSubmit);
    assert!(!p.dry_run_available);
}

#[test]
fn test_dry_run_rpc_error_fails() {
    let mut p = SubmissionPipeline::new(3, true, false, 0);
    p.on_dry_run_outcome(DryRunOutcome::CallFailed("connection reset".to_string()));
    assert_eq!(
        p.state,
        PipelineState::Failed(MigrationError::RpcError("connection reset".to_string()))
    );
}

#[test]
fn test_validate_only_run_succeeds_without_transmitting() {
    let mut p = SubmissionPipeline::new(3, true, true, 0);
    p.on_dry_run_outcome(DryRunOutcome::Approved);
    p.on_validated();
    assert_eq!(p.state, PipelineState::Succeeded);
}

#[test]
fn test_dry_run_unavailable_from_start() {
    let p = SubmissionPipeline::new(3, false, false, 0);
    assert_eq!(p.state, PipelineState::ReadyToSubmit);
}

#[test]
fn test_submit_error_is_classified() {
    let mut p = SubmissionPipeline::new(3, false, false, 0);
    p.on_validated();
    p.on_submit_error("Error 1014: Priority is too low".to_string());
    assert_eq!(p.state, PipelineState::Failed(MigrationError::PoolConflict));
}

#[test]
fn test_finalization_event_succeeds() {
    let mut p = SubmissionPipeline::new(3, false, false, 7);
    p.on_validated();
    p.on_submitted();
    p.on_stream_event(false, Some(StreamEvent::Broadcasted(12)));
    assert_eq!(p.state, PipelineState::Watching);
    p.on_stream_event(false, Some(StreamEvent::InFinalizedBlock));
    assert_eq!(p.state, PipelineState::Succeeded);
}

#[test]
fn test_dropped_event_fails() {
    let mut p = SubmissionPipeline::new(3, false, false, 7);
    p.on_validated();
    p.on_submitted();
    p.on_stream_event(false, Some(StreamEvent::Dropped("pool full".to_string())));
    assert_eq!(
        p.state,
        PipelineState::Failed(MigrationError::TxDropped("pool full".to_string()))
    );
}

#[test]
fn test_stream_error_event_fails() {
    let mut p = SubmissionPipeline::new(3, false, false, 7);
    p.on_validated();
    p.on_submitted();
    p.on_stream_event(false, Some(StreamEvent::StreamError("disconnect".to_string())));
    assert_eq!(
        p.state,
        PipelineState::Failed(MigrationError::SubmissionFailed("disconnect".to_string()))
    );
}

#[test]
fn test_undecodable_dry_run_proceeds() {
    let mut p = SubmissionPipeline::new(3, true, false, 0);
    p.on_dry_run_outcome(DryRunOutcome::Undecodable);
    assert_eq!(p.state, PipelineState::ReadyToSubmit);
    assert!(p.dry_run_available);
}
