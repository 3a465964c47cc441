//! The safety monitor: balance-loss detection and the zero-balance
//! precondition.
//!
//! The migration operation is free for the controlling account, so any
//! balance decrease across a submission is evidence of a systemic fault and
//! must stop automated spending at once. Increases and equality are never
//! reported: refunds or rewards are not a fault.

use vstd::prelude::*;

use crate::error::MigrationError;

verus! {

/// What a balance comparison reports: the raw units lost when the balance
/// fell, nothing otherwise.
pub open spec fn spec_balance_decrease(before: int, after: int) -> Option<int> {
    if after < before {
        Some(before - after)
    } else {
        None
    }
}

/// Compares the account balance around an operation. Returns the amount lost
/// in raw units exactly when `after` is below `before`; any increase or
/// equality reports nothing. The amount is `before - after`, never negative.
pub fn check_balance_decrease(before: u128, after: u128) -> (r: Option<u128>)
    ensures
        r is Some <==> after < before,
        r is Some ==> r->0 == before - after,
        after >= before ==> r is None,
{
    if after < before {
        Some(before - after)
    } else {
        None
    }
}

/// Reports the zero-balance precondition: an account without funds cannot
/// submit, so a zero balance fails unless the run is validate-only.
pub fn check_funding(balance: u128, dry_run_only: bool) -> (r: Result<(), MigrationError>)
    ensures
        r is Err <==> (balance == 0 && !dry_run_only),
        r is Err ==> r->Err_0 == MigrationError::ZeroBalance,
{
    if balance == 0 && !dry_run_only {
        Err(MigrationError::ZeroBalance)
    } else {
        Ok(())
    }
}

} // verus!
