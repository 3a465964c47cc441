//! The closed failure taxonomy of the agent.
//!
//! Every failure the agent can meet is mapped into one `MigrationError`
//! kind. Each kind carries two derived predicates: whether the failure is
//! recoverable (retry with a short backoff) and whether it asks for a pool
//! wait (a conflicting queued operation must clear first). Unrecognized
//! failure text maps to `SubmissionFailed`, which is non-recoverable, so an
//! unknown failure mode is never retried forever.

use vstd::prelude::*;

use crate::text::{contains_sub, dec_digits, display_units, str_contains, u128_to_dec,
    units_to_display};
use crate::validity::{spec_validity_message, ValidityError, ValidityModel};

verus! {

/// One failure kind of the closed taxonomy.
#[derive(Debug, Clone, PartialEq, Eq)]
pub enum MigrationError {
    /// Another operation from this account already occupies the pool.
    PoolConflict,
    /// The operation's nonce was already applied or is pending.
    NonceStale,
    /// The operation's nonce is ahead of the account's next nonce.
    NonceFuture,
    /// The operation is temporarily banned from the pool.
    TxBanned,
    /// A dry run reported a dispatch error.
    DryRunDispatchError(String),
    /// The operation would exceed the size ceiling; submitting it anyway
    /// would risk a penalty.
    SizeExceeded,
    /// A dry run rejected the operation as invalid.
    ValidityError(ValidityError),
    /// The balance fell after an operation that should be free; the amount
    /// lost is in raw units.
    BalanceDecreased { lost_units: u128 },
    /// The account holds no funds at all.
    ZeroBalance,
    /// The connection to the endpoint could not be established.
    ConnectionFailed(String),
    /// A call to the endpoint failed.
    RpcError(String),
    /// Submitting the operation failed.
    SubmissionFailed(String),
    /// The operation was dropped from the pool.
    TxDropped(String),
    /// The signing seed could not be parsed.
    InvalidSeed(String),
    /// Too many consecutive non-recoverable failures.
    TooManyErrors { count: u32, last_error: String },
}

/// The mathematical model of a `MigrationError`: the same kinds with text as
/// character sequences and counts as unbounded integers.
pub enum ErrorModel {
    PoolConflict,
    NonceStale,
    NonceFuture,
    TxBanned,
    DryRunDispatchError(Seq<char>),
    SizeExceeded,
    Validity(ValidityModel),
    BalanceDecreased { lost_units: int },
    ZeroBalance,
    ConnectionFailed(Seq<char>),
    RpcError(Seq<char>),
    SubmissionFailed(Seq<char>),
    TxDropped(Seq<char>),
    InvalidSeed(Seq<char>),
    TooManyErrors { count: int, last_error: Seq<char> },
}

impl MigrationError {
    /// The model of this value.
    pub open spec fn model(self) -> ErrorModel {
        match self {
            MigrationError::PoolConflict => ErrorModel::PoolConflict,
            MigrationError::NonceStale => ErrorModel::NonceStale,
            MigrationError::NonceFuture => ErrorModel::NonceFuture,
            MigrationError::TxBanned => ErrorModel::TxBanned,
            MigrationError::DryRunDispatchError(s) => ErrorModel::DryRunDispatchError(s@),
            MigrationError::SizeExceeded => ErrorModel::SizeExceeded,
            MigrationError::ValidityError(v) => ErrorModel::Validity(v.model()),
            MigrationError::BalanceDecreased { lost_units } => ErrorModel::BalanceDecreased {
                lost_units: lost_units as int,
            },
            MigrationError::ZeroBalance => ErrorModel::ZeroBalance,
            MigrationError::ConnectionFailed(s) => ErrorModel::ConnectionFailed(s@),
            MigrationError::RpcError(s) => ErrorModel::RpcError(s@),
            MigrationError::SubmissionFailed(s) => ErrorModel::SubmissionFailed(s@),
            MigrationError::TxDropped(s) => ErrorModel::TxDropped(s@),
            MigrationError::InvalidSeed(s) => ErrorModel::InvalidSeed(s@),
            MigrationError::TooManyErrors { count, last_error } => ErrorModel::TooManyErrors {
                count: count as int,
                last_error: last_error@,
            },
        }
    }
}

/// Is a failure of this kind recoverable by retrying with a short backoff?
pub open spec fn spec_is_recoverable(m: ErrorModel) -> bool {
    match m {
        ErrorModel::PoolConflict => true,
        ErrorModel::NonceStale => true,
        ErrorModel::NonceFuture => true,
        ErrorModel::TxBanned => true,
        ErrorModel::RpcError(_) => true,
        _ => false,
    }
}

/// Does a failure of this kind mean a conflicting queued operation must
/// clear before the next attempt?
pub open spec fn spec_requires_pool_wait(m: ErrorModel) -> bool {
    match m {
        ErrorModel::PoolConflict => true,
        ErrorModel::NonceStale => true,
        _ => false,
    }
}

/// What failure text classifies to: a pool-priority conflict, a bad
/// signature or stale nonce, a temporary ban, or, unmatched, a plain
/// submission failure carrying the text.
pub open spec fn spec_classify_rpc_error(text: Seq<char>) -> ErrorModel {
    if str_contains(text, "1014"@) || str_contains(text, "Priority is too low"@) {
        ErrorModel::PoolConflict
    } else if str_contains(text, "1010"@) || str_contains(text, "bad signature"@) {
        ErrorModel::NonceStale
    } else if str_contains(text, "1012"@) || str_contains(text, "temporarily banned"@) {
        ErrorModel::TxBanned
    } else {
        ErrorModel::SubmissionFailed(text)
    }
}

/// The failure kind a validity rejection maps to: the nonce and priority
/// rejections have kinds of their own; the rest stay validity errors.
pub open spec fn spec_from_validity(v: ValidityModel) -> ErrorModel {
    match v {
        ValidityModel::Stale => ErrorModel::NonceStale,
        ValidityModel::Future => ErrorModel::NonceFuture,
        ValidityModel::Priority => ErrorModel::PoolConflict,
        _ => ErrorModel::Validity(v),
    }
}

/// The description of each failure kind.
pub open spec fn spec_error_message(m: ErrorModel) -> Seq<char> {
    match m {
        ErrorModel::PoolConflict => "Pool conflict: another transaction is pending (code 1014)"@,
        ErrorModel::NonceStale => "Stale nonce: transaction already applied or pending"@,
        ErrorModel::NonceFuture => "Future nonce: previous transaction not yet applied"@,
        ErrorModel::TxBanned => "Transaction temporarily banned from pool"@,
        ErrorModel::DryRunDispatchError(s) => "Dry run dispatch error: "@ + s,
        ErrorModel::SizeExceeded => "SizeUpperBoundExceeded - reduce item_limit to avoid slashing"@,
        ErrorModel::Validity(v) => "Transaction validity error: "@ + spec_validity_message(v),
        ErrorModel::BalanceDecreased { lost_units } => "Balance decreased by "@ + display_units(
            lost_units,
        ) + " WND - possible slashing detected!"@,
        ErrorModel::ZeroBalance => "Account has zero balance - transactions will fail"@,
        ErrorModel::ConnectionFailed(s) => "Failed to connect to RPC: "@ + s,
        ErrorModel::RpcError(s) => "RPC request failed: "@ + s,
        ErrorModel::SubmissionFailed(s) => "Transaction submission failed: "@ + s,
        ErrorModel::TxDropped(s) => "Transaction dropped: "@ + s,
        ErrorModel::InvalidSeed(s) => "Invalid seed: "@ + s,
        ErrorModel::TooManyErrors { count, last_error } => "Stopped after "@ + dec_digits(
            count as nat,
        ) + " consecutive errors. Last: "@ + last_error,
    }
}

impl MigrationError {
    /// Is this failure recoverable (retry with a short backoff)?
    pub fn is_recoverable(&self) -> (r: bool)
        ensures
            r == spec_is_recoverable(self.model()),
    {
        match self {
            MigrationError::PoolConflict => true,
            MigrationError::NonceStale => true,
            MigrationError::NonceFuture => true,
            MigrationError::TxBanned => true,
            MigrationError::RpcError(_) => true,
            _ => false,
        }
    }

    /// Does this failure ask for a wait until a conflicting queued operation
    /// clears, rather than counting as a failure?
    pub fn requires_pool_wait(&self) -> (r: bool)
        ensures
            r == spec_requires_pool_wait(self.model()),
    {
        match self {
            MigrationError::PoolConflict => true,
            MigrationError::NonceStale => true,
            _ => false,
        }
    }

    /// Classifies raw failure text by scanning for the known markers. Total:
    /// every text maps to exactly one kind, unmatched text to
    /// `SubmissionFailed` carrying the text.
    pub fn from_rpc_error(err_str: &str) -> (r: MigrationError)
        ensures
            r.model() == spec_classify_rpc_error(err_str@),
    {
        if contains_sub(err_str, "1014") || contains_sub(err_str, "Priority is too low") {
            MigrationError::PoolConflict
        } else if contains_sub(err_str, "1010") || contains_sub(err_str, "bad signature") {
            MigrationError::NonceStale
        } else if contains_sub(err_str, "1012") || contains_sub(err_str, "temporarily banned") {
            MigrationError::TxBanned
        } else {
            MigrationError::SubmissionFailed(String::from_str(err_str))
        }
    }

    /// Maps a validity rejection to its failure kind.
    pub fn from_validity_error(ve: ValidityError) -> (r: MigrationError)
        ensures
            r.model() == spec_from_validity(ve.model()),
    {
        match ve {
            ValidityError::Stale => MigrationError::NonceStale,
            ValidityError::Future => MigrationError::NonceFuture,
            ValidityError::Priority => MigrationError::PoolConflict,
            _ => MigrationError::ValidityError(ve),
        }
    }

    /// The human-readable description of this failure.
    pub fn message(&self) -> (r: String)
        ensures
            r@ == spec_error_message(self.model()),
    {
        match self {
            MigrationError::PoolConflict => String::from_str(
                "Pool conflict: another transaction is pending (code 1014)",
            ),
            MigrationError::NonceStale => String::from_str(
                "Stale nonce: transaction already applied or pending",
            ),
            MigrationError::NonceFuture => String::from_str(
                "Future nonce: previous transaction not yet applied",
            ),
            MigrationError::TxBanned => String::from_str(
                "Transaction temporarily banned from pool",
            ),
            MigrationError::DryRunDispatchError(s) => {
                let mut r = String::from_str("Dry run dispatch error: ");
                r.append(s.as_str());
                r
            },
            MigrationError::SizeExceeded => String::from_str(
                "SizeUpperBoundExceeded - reduce item_limit to avoid slashing",
            ),
            MigrationError::ValidityError(v) => {
                let mut r = String::from_str("Transaction validity error: ");
                let m = v.message();
                r.append(m.as_str());
                r
            },
            MigrationError::BalanceDecreased { lost_units } => {
                let mut r = String::from_str("Balance decreased by ");
                let d = units_to_display(*lost_units);
                r.append(d.as_str());
                r.append(" WND - possible slashing detected!");
                r
            },
            MigrationError::ZeroBalance => String::from_str(
                "Account has zero balance - transactions will fail",
            ),
            MigrationError::ConnectionFailed(s) => {
                let mut r = String::from_str("Failed to connect to RPC: ");
                r.append(s.as_str());
                r
            },
            MigrationError::RpcError(s) => {
                let mut r = String::from_str("RPC request failed: ");
                r.append(s.as_str());
                r
            },
            MigrationError::SubmissionFailed(s) => {
                let mut r = String::from_str("Transaction submission failed: ");
                r.append(s.as_str());
                r
            },
            MigrationError::TxDropped(s) => {
                let mut r = String::from_str("Transaction dropped: ");
                r.append(s.as_str());
                r
            },
            MigrationError::InvalidSeed(s) => {
                let mut r = String::from_str("Invalid seed: ");
                r.append(s.as_str());
                r
            },
            MigrationError::TooManyErrors { count, last_error } => {
                let mut r = String::from_str("Stopped after ");
                let d = u128_to_dec(*count as u128);
                r.append(d.as_str());
                r.append(" consecutive errors. Last: ");
                r.append(last_error.as_str());
                r
            },
        }
    }
}

/// The recoverability predicates agree with the taxonomy: the pool-conflict,
/// stale-nonce, future-nonce, banned and endpoint-failure kinds are
/// recoverable and every other kind is not; exactly the pool-conflict and
/// stale-nonce kinds ask for a pool wait; and whatever asks for a pool wait
/// is recoverable.
pub proof fn lemma_recoverability_taxonomy()
    ensures
        spec_is_recoverable(ErrorModel::PoolConflict),
        spec_is_recoverable(ErrorModel::NonceStale),
        spec_is_recoverable(ErrorModel::NonceFuture),
        spec_is_recoverable(ErrorModel::TxBanned),
        forall|s: Seq<char>| spec_is_recoverable(ErrorModel::RpcError(s)),
        forall|m: ErrorModel|
            spec_is_recoverable(m) <==> (m is PoolConflict || m is NonceStale || m is NonceFuture
                || m is TxBanned || m is RpcError),
        forall|m: ErrorModel|
            spec_requires_pool_wait(m) <==> (m is PoolConflict || m is NonceStale),
        forall|m: ErrorModel| spec_requires_pool_wait(m) ==> spec_is_recoverable(m),
{
}

} // verus!
