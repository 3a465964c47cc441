//! The submission pipeline: one operation from validation to durable
//! confirmation, as an event-driven state machine.
//!
//! The caller performs the network work (signing, the dry-run call, the
//! submission, reading the status stream, nonce queries) and reports each
//! result here; the machine holds every decision. One subtlety is load
//! bearing: event delivery over the status stream is not reliable, so on a
//! timeout or an early stream end, success is re-derived from the account
//! nonce, which only advances when an operation of the account was applied.

use vstd::prelude::*;

use crate::error::{spec_classify_rpc_error, spec_from_validity, MigrationError};
use crate::text::{contains_sub, str_contains};
use crate::validity::{decode_validity_error, spec_decode_validity, ValidityError};

verus! {

/// How many times one submission builds and validates a payload before it
/// gives up on a stale-nonce race.
pub const MAX_DRY_RUN_ATTEMPTS: u32 = 3;

/// How long the pipeline waits for finalization before it reconciles
/// through the account nonce.
pub const FINALIZATION_TIMEOUT_SECS: u64 = 120;

/// What a dry-run call reported.
#[derive(Debug, Clone, PartialEq, Eq)]
pub enum DryRunOutcome {
    /// The simulated dispatch succeeded.
    Approved,
    /// The simulated dispatch failed; the text describes the dispatch error.
    DispatchError(String),
    /// The operation was rejected as invalid; the raw rejection bytes.
    ValidityRejection(Vec<u8>),
    /// The call returned bytes that could not be decoded either way.
    Undecodable,
    /// The dry-run call itself failed; the text describes the call error.
    CallFailed(String),
}

/// One event from the live status stream of a submitted operation.
#[derive(Debug, Clone, PartialEq, Eq)]
pub enum StreamEvent {
    /// Broadcast to this many peers.
    Broadcasted(u32),
    /// Included in a best block: provisional, not yet durable.
    InBestBlock,
    /// Included in a finalized block: durable.
    InFinalizedBlock,
    /// The stream reported an error with this message.
    StreamError(String),
    /// The operation was dropped from the pool with this message.
    Dropped(String),
    /// Any other event; the pipeline ignores it.
    OtherEvent,
}

/// Where one submission attempt stands.
#[derive(Debug, Clone, PartialEq, Eq)]
pub enum PipelineState {
    /// Sign a payload and run the simulated dispatch.
    DryRunning,
    /// Validation is done (or unavailable); decide whether to transmit.
    ReadyToSubmit,
    /// Sign a fresh payload and transmit it.
    Submitting,
    /// Consume the status stream until finalization or the timeout.
    Watching,
    /// Query the account nonce to re-derive the outcome.
    Reconciling,
    /// The operation is durably confirmed (or validation-only succeeded).
    Succeeded,
    /// The attempt failed with this error.
    Failed(MigrationError),
}

/// The state machine for one submission attempt.
pub struct SubmissionPipeline {
    /// Where the attempt stands; tells the caller what to do next.
    pub state: PipelineState,
    /// Validation attempts already made.
    pub attempt: u32,
    /// The bound on validation attempts (at least one).
    pub max_dry_run_attempts: u32,
    /// The dry-run capability is believed available. Cleared permanently the
    /// first time the call reports the capability missing.
    pub dry_run_available: bool,
    /// Validate only: report success without transmitting.
    pub dry_run_only: bool,
    /// The account nonce recorded before submission; the reconciliation
    /// baseline.
    pub expected_nonce: u32,
    /// A best-block inclusion was seen while watching.
    pub included: bool,
}

impl SubmissionPipeline {
    /// A pipeline ready for one submission attempt. Starts with validation
    /// when the dry-run capability is available, otherwise goes straight to
    /// the submission decision.
    pub fn new(
        max_dry_run_attempts: u32,
        dry_run_available: bool,
        dry_run_only: bool,
        expected_nonce: u32,
    ) -> (r: SubmissionPipeline)
        requires
            max_dry_run_attempts >= 1,
        ensures
            r.state == if dry_run_available {
                PipelineState::DryRunning
            } else {
                PipelineState::ReadyToSubmit
            },
            r.attempt == 0,
            r.max_dry_run_attempts == max_dry_run_attempts,
            r.dry_run_available == dry_run_available,
            r.dry_run_only == dry_run_only,
            r.expected_nonce == expected_nonce,
            !r.included,
    {
        SubmissionPipeline {
            state: if dry_run_available {
                PipelineState::DryRunning
            } else {
                PipelineState::ReadyToSubmit
            },
            attempt: 0,
            max_dry_run_attempts,
            dry_run_available,
            dry_run_only,
            expected_nonce,
            included: false,
        }
    }

    /// Consumes a dry-run result. A success, an undecodable result, or an
    /// unavailable capability proceeds to the submission decision (the last
    /// disabling dry runs permanently). A size-ceiling dispatch error fails
    /// fast as `SizeExceeded`; any other dispatch error fails. A stale-nonce
    /// validity rejection retries with a fresh payload while attempts
    /// remain; every other rejection fails with its mapped kind.
    pub fn on_dry_run_outcome(&mut self, outcome: DryRunOutcome)
        requires
            old(self).state is DryRunning,
            old(self).attempt < old(self).max_dry_run_attempts,
        ensures
            final(self).max_dry_run_attempts == old(self).max_dry_run_attempts,
            final(self).dry_run_only == old(self).dry_run_only,
            final(self).expected_nonce == old(self).expected_nonce,
            final(self).included == old(self).included,
            match outcome {
                DryRunOutcome::Approved => final(self).state is ReadyToSubmit && final(self).dry_run_available == old(self).dry_run_available && final(self).attempt == old(self).attempt,
                DryRunOutcome::DispatchError(s) => final(self).dry_run_available == old(self).dry_run_available && final(self).attempt == old(self).attempt && (if str_contains(
                    s@,
                    "SizeUpperBoundExceeded"@,
                ) {
                    final(self).state == PipelineState::Failed(MigrationError::SizeExceeded)
                } else {
                    &&& final(self).state is Failed
                    &&& final(self).state->Failed_0.model() == crate::error::ErrorModel::DryRunDispatchError(s@)
                }),
                DryRunOutcome::ValidityRejection(b) => final(self).dry_run_available == old(self).dry_run_available && (if spec_decode_validity(b@) is Stale && old(self).attempt
                    + 1 < old(self).max_dry_run_attempts {
                    &&& final(self).state is DryRunning
                    &&& final(self).attempt == old(self).attempt + 1
                    &&& final(self).attempt < final(self).max_dry_run_attempts
                } else {
                    &&& final(self).state is Failed
                    &&& final(self).state->Failed_0.model() == spec_from_validity(
                        spec_decode_validity(b@),
                    )
                    &&& final(self).attempt == old(self).attempt
                }),
                DryRunOutcome::Undecodable => final(self).state is ReadyToSubmit && final(self).dry_run_available == old(self).dry_run_available && final(self).attempt == old(self).attempt,
                DryRunOutcome::CallFailed(s) => final(self).attempt == old(self).attempt && (
                if str_contains(s@, "unsafe"@) {
                    final(self).state is ReadyToSubmit && !final(self).dry_run_available
                } else {
                    &&& final(self).state is Failed
                    &&& final(self).state->Failed_0.model() == crate::error::ErrorModel::RpcError(
                        s@,
                    )
                    &&& final(self).dry_run_available == old(self).dry_run_available
                }),
            },
    {
        match outcome {
            DryRunOutcome::Approved => {
                self.state = PipelineState::ReadyToSubmit;
            },
            DryRunOutcome::DispatchError(s) => {
                if contains_sub(s.as_str(), "SizeUpperBoundExceeded") {
                    self.state = PipelineState::Failed(MigrationError::SizeExceeded);
                } else {
                    self.state = PipelineState::Failed(MigrationError::DryRunDispatchError(s));
                }
            },
            DryRunOutcome::ValidityRejection(b) => {
                let ve = decode_validity_error(b.as_slice());
                let stale = matches!(ve, ValidityError::Stale);
                if stale && self.attempt + 1 < self.max_dry_run_attempts {
                    self.attempt = self.attempt + 1;
                } else {
                    self.state = PipelineState::Failed(MigrationError::from_validity_error(ve));
                }
            },
            DryRunOutcome::Undecodable => {
                self.state = PipelineState::ReadyToSubmit;
            },
            DryRunOutcome::CallFailed(s) => {
                if contains_sub(s.as_str(), "unsafe") {
                    self.dry_run_available = false;
                    self.state = PipelineState::ReadyToSubmit;
                } else {
                    self.state = PipelineState::Failed(MigrationError::RpcError(s));
                }
            },
        }
    }

    /// Decides whether to transmit: a validate-only run succeeds here
    /// without transmitting; otherwise the caller signs a fresh payload (so
    /// the mortality window starts at transmission) and submits it.
    pub fn on_validated(&mut self)
        requires
            old(self).state is ReadyToSubmit,
        ensures
            *final(self) == (SubmissionPipeline {
                state: if old(self).dry_run_only {
                    PipelineState::Succeeded
                } else {
                    PipelineState::Submitting
                },
                ..*old(self)
            }),
    {
        if self.dry_run_only {
            self.state = PipelineState::Succeeded;
        } else {
            self.state = PipelineState::Submitting;
        }
    }

    /// The submission call was accepted and a status stream is live.
    pub fn on_submitted(&mut self)
        requires
            old(self).state is Submitting,
        ensures
            *final(self) == (SubmissionPipeline { state: PipelineState::Watching, ..*old(self) }),
    {
        self.state = PipelineState::Watching;
    }

    /// The submission call itself failed; its text is classified into the
    /// taxonomy (pool conflict, stale nonce, temporary ban, or a plain
    /// submission failure).
    pub fn on_submit_error(&mut self, err_text: String)
        requires
            old(self).state is Submitting,
        ensures
            final(self).state is Failed,
            final(self).state->Failed_0.model() == spec_classify_rpc_error(err_text@),
            *final(self) == (SubmissionPipeline { state: final(self).state, ..*old(self) }),
    {
        self.state = PipelineState::Failed(MigrationError::from_rpc_error(err_text.as_str()));
    }

    /// Consumes one observation while watching the status stream. `event` is
    /// the next stream event, or nothing when the stream ended early;
    /// `timed_out` says the finalization bound has passed. Finalization
    /// succeeds; a stream error or a drop fails with the corresponding kind;
    /// a best-block inclusion is recorded as provisional and the watch goes
    /// on; a timeout or an early stream end moves to nonce reconciliation.
    pub fn on_stream_event(&mut self, timed_out: bool, event: Option<StreamEvent>)
        requires
            old(self).state is Watching,
        ensures
            final(self).attempt == old(self).attempt,
            final(self).max_dry_run_attempts == old(self).max_dry_run_attempts,
            final(self).dry_run_available == old(self).dry_run_available,
            final(self).dry_run_only == old(self).dry_run_only,
            final(self).expected_nonce == old(self).expected_nonce,
            if timed_out || event is None {
                final(self).state is Reconciling && final(self).included == old(self).included
            } else {
                match event->0 {
                    StreamEvent::InFinalizedBlock => final(self).state is Succeeded && final(self).included == old(self).included,
                    StreamEvent::StreamError(m) => final(self).state is Failed && final(self).state->Failed_0.model() == crate::error::ErrorModel::SubmissionFailed(m@)
                        && final(self).included == old(self).included,
                    StreamEvent::Dropped(m) => final(self).state is Failed && final(self).state->Failed_0.model() == crate::error::ErrorModel::TxDropped(m@) && final(self).included == old(self).included,
                    StreamEvent::InBestBlock => final(self).state is Watching && final(self).included,
                    _ => final(self).state is Watching && final(self).included == old(self).included,
                }
            },
    {
        if timed_out {
            self.state = PipelineState::Reconciling;
            return ;
        }
        match event {
            None => {
                self.state = PipelineState::Reconciling;
            },
            Some(ev) => match ev {
                StreamEvent::InFinalizedBlock => {
                    self.state = PipelineState::Succeeded;
                },
                StreamEvent::StreamError(m) => {
                    self.state = PipelineState::Failed(MigrationError::SubmissionFailed(m));
                },
                StreamEvent::Dropped(m) => {
                    self.state = PipelineState::Failed(MigrationError::TxDropped(m));
                },
                StreamEvent::InBestBlock => {
                    self.included = true;
                },
                _ => {},
            },
        }
    }

    /// Reconciles through the account nonce: when it advanced past the
    /// recorded baseline, the operation was applied and the lost
    /// confirmation does not matter; otherwise the attempt failed.
    pub fn on_nonce(&mut self, current_nonce: u32)
        requires
            old(self).state is Reconciling,
        ensures
            final(self).attempt == old(self).attempt,
            final(self).max_dry_run_attempts == old(self).max_dry_run_attempts,
            final(self).dry_run_available == old(self).dry_run_available,
            final(self).dry_run_only == old(self).dry_run_only,
            final(self).expected_nonce == old(self).expected_nonce,
            final(self).included == old(self).included,
            if current_nonce > old(self).expected_nonce {
                final(self).state is Succeeded
            } else {
                final(self).state is Failed && final(self).state->Failed_0.model()
                    == crate::error::ErrorModel::SubmissionFailed(
                    "Finalization timeout - TX may be stuck"@,
                )
            },
    {
        if current_nonce > self.expected_nonce {
            self.state = PipelineState::Succeeded;
        } else {
            self.state = PipelineState::Failed(
                MigrationError::SubmissionFailed(
                    String::from_str("Finalization timeout - TX may be stuck"),
                ),
            );
        }
    }
}

} // verus!
