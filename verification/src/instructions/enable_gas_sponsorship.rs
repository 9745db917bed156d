//! Enabling optional gas sponsorship for a contest: a thin pass-through
//! funding of a dedicated sponsorship pool.

use vstd::prelude::*;
use crate::account::AccountId;
use crate::errors::ErrorCode;
use crate::escrow::Escrow;
use crate::state::contest::Contest;
use crate::state::contest::ContestStatus;

verus! {

/// Why enabling sponsorship is rejected, if it is, in the order the rules
/// are checked: only the creator may enable it, the contest must be
/// `Active`, and the pool credit must not overflow.
pub open spec fn enable_gas_sponsorship_error(
    contest: Contest,
    gas_pool: Escrow,
    caller: AccountId,
    gas_budget: u64,
) -> Option<ErrorCode> {
    if caller != contest.creator {
        Some(ErrorCode::UnauthorizedCreator)
    } else if contest.status != ContestStatus::Active {
        Some(ErrorCode::InvalidContestState)
    } else if gas_pool.balance + gas_budget > u64::MAX {
        Some(ErrorCode::CalculationOverflow)
    } else {
        None
    }
}

/// Credits `gas_budget` to the contest's sponsorship pool and marks
/// sponsorship enabled. On success the returned amount is the debit leg
/// the host must take from the creator. No consensus or lifecycle
/// coupling: the contest's status is read, never changed. Fails per
/// [`enable_gas_sponsorship_error`], changing nothing.
pub fn enable_gas_sponsorship(
    contest: &mut Contest,
    gas_pool: &mut Escrow,
    caller: AccountId,
    gas_budget: u64,
) -> (r: Result<u64, ErrorCode>)
    ensures
        match enable_gas_sponsorship_error(*old(contest), *old(gas_pool), caller, gas_budget) {
            Some(e) => r == Result::<u64, ErrorCode>::Err(e) && *final(contest) == *old(contest)
                && *final(gas_pool) == *old(gas_pool),
            None => r == Result::<u64, ErrorCode>::Ok(gas_budget) && *final(contest) == (Contest {
                gas_sponsorship_enabled: true,
                ..*old(contest)
            }) && final(gas_pool).balance == old(gas_pool).balance + gas_budget,
        },
        old(contest).wf() ==> final(contest).wf(),
{
    if caller != contest.creator {
        return Err(ErrorCode::UnauthorizedCreator);
    }
    if contest.status != ContestStatus::Active {
        return Err(ErrorCode::InvalidContestState);
    }
    match gas_pool.fund(gas_budget) {
        Ok(()) => {},
        Err(e) => {
            return Err(e);
        },
    }
    contest.gas_sponsorship_enabled = true;
    Ok(gas_budget)
}

} // verus!
