//! The limits negotiator: resolving per-operation size and item ceilings.
//!
//! Runs once before the control loop. A requested limit of zero means
//! "derive automatically": half of the chain's configured maximum, a safety
//! margin against concurrent state drift and against exceeding the true
//! maximum, which would risk a penalty. When the chain has no maximum set,
//! hardcoded defaults are used and established on chain. When the resolved
//! limits exceed the chain's maximum, the on-chain ceiling must be raised
//! (a privileged transaction) before submissions start.

use vstd::prelude::*;

verus! {

/// Fallback item ceiling when the chain has no maximum configured.
pub const DEFAULT_ITEM_LIMIT: u32 = 4096;

/// Fallback size ceiling in bytes when the chain has no maximum configured.
pub const DEFAULT_SIZE_LIMIT: u32 = 409600;

/// Per-operation ceilings: bytes and items per submission.
#[derive(Debug, Clone, Copy, PartialEq, Eq, Structural)]
pub struct OperationLimits {
    /// Size limit in bytes per operation.
    pub size_limit: u32,
    /// Item count limit per operation.
    pub item_limit: u32,
}

/// What the negotiator asks the caller to do after resolving.
#[derive(Debug, Clone, Copy, PartialEq, Eq, Structural)]
pub enum LimitsAction {
    /// The resolved limits fit under the chain's ceilings; proceed.
    UseExisting,
    /// The on-chain ceiling must be set or raised to the resolved limits,
    /// and that transaction finalized, before submissions start.
    RaiseCeiling,
}

/// The effective limits: each requested value stands unless it is zero, in
/// which case half of the chain's maximum is used, or the hardcoded default
/// when the chain has no maximum.
pub open spec fn spec_effective_limits(requested: OperationLimits, chain_max: Option<(u32, u32)>)
    -> OperationLimits {
    match chain_max {
        Some((max_size, max_item)) => OperationLimits {
            size_limit: if requested.size_limit == 0 {
                (max_size / 2) as u32
            } else {
                requested.size_limit
            },
            item_limit: if requested.item_limit == 0 {
                (max_item / 2) as u32
            } else {
                requested.item_limit
            },
        },
        None => OperationLimits {
            size_limit: if requested.size_limit == 0 {
                DEFAULT_SIZE_LIMIT
            } else {
                requested.size_limit
            },
            item_limit: if requested.item_limit == 0 {
                DEFAULT_ITEM_LIMIT
            } else {
                requested.item_limit
            },
        },
    }
}

/// Whether the on-chain ceiling must change: always when none is set, and
/// when either effective limit exceeds the chain's maximum.
pub open spec fn spec_limits_action(requested: OperationLimits, chain_max: Option<(u32, u32)>)
    -> LimitsAction {
    match chain_max {
        Some((max_size, max_item)) => {
            let eff = spec_effective_limits(requested, chain_max);
            if eff.item_limit > max_item || eff.size_limit > max_size {
                LimitsAction::RaiseCeiling
            } else {
                LimitsAction::UseExisting
            }
        },
        None => LimitsAction::RaiseCeiling,
    }
}

/// Resolves the effective per-operation limits from the operator's request
/// and the chain's configured maximums, and says whether the on-chain
/// ceiling must be set or raised first.
pub fn resolve_limits(requested: OperationLimits, chain_max: Option<(u32, u32)>) -> (r: (
    OperationLimits,
    LimitsAction,
))
    ensures
        r.0 == spec_effective_limits(requested, chain_max),
        r.1 == spec_limits_action(requested, chain_max),
{
    match chain_max {
        Some((max_size, max_item)) => {
            let size_limit = if requested.size_limit == 0 {
                max_size / 2
            } else {
                requested.size_limit
            };
            let item_limit = if requested.item_limit == 0 {
                max_item / 2
            } else {
                requested.item_limit
            };
            let eff = OperationLimits { size_limit, item_limit };
            let action = if item_limit > max_item || size_limit > max_size {
                LimitsAction::RaiseCeiling
            } else {
                LimitsAction::UseExisting
            };
            (eff, action)
        },
        None => {
            let size_limit = if requested.size_limit == 0 {
                DEFAULT_SIZE_LIMIT
            } else {
                requested.size_limit
            };
            let item_limit = if requested.item_limit == 0 {
                DEFAULT_ITEM_LIMIT
            } else {
                requested.item_limit
            };
            (OperationLimits { size_limit, item_limit }, LimitsAction::RaiseCeiling)
        },
    }
}

/// The declared size upper bound handed to the migration call: twice the
/// effective size limit.
pub fn size_upper_bound(size_limit: u32) -> (r: u64)
    ensures
        r == 2 * size_limit as u64,
{
    2 * (size_limit as u64)
}

} // verus!
