//! Reclaiming unused escrow funds after the time-locked grace window.

use vstd::prelude::*;
use crate::account::AccountId;
use crate::errors::ErrorCode;
use crate::escrow::Escrow;
use crate::escrow::Payout;
use crate::state::contest::Contest;
use crate::state::contest::ContestStatus;

verus! {

/// The grace window after the submission deadline before the creator may
/// reclaim the escrow: 30 days, in seconds.
pub const RECLAIM_GRACE_SECONDS: i64 = 30 * 24 * 60 * 60;

/// Why reclaiming is rejected, if it is, in the order the rules are
/// checked: only the creator may reclaim, the contest must not be
/// completed, and the grace window must have elapsed — the boundary is
/// inclusive, so reclaiming at exactly deadline + 30 days succeeds.
pub open spec fn reclaim_funds_error(contest: Contest, caller: AccountId, now: i64) -> Option<
    ErrorCode,
> {
    if caller != contest.creator {
        Some(ErrorCode::UnauthorizedCreator)
    } else if contest.status == ContestStatus::Completed {
        Some(ErrorCode::ContestAlreadyCompleted)
    } else if now < contest.submission_deadline + RECLAIM_GRACE_SECONDS {
        Some(ErrorCode::ReclaimPeriodNotReached)
    } else {
        None
    }
}

/// Returns the whole remaining escrow balance to the creator once the
/// grace window has elapsed. On success the escrow is zeroed and the
/// returned payout is the credit leg the host owes the creator; the
/// contest record itself — its status included — is not changed. Fails per
/// [`reclaim_funds_error`], changing nothing.
pub fn reclaim_funds(contest: &Contest, escrow: &mut Escrow, caller: AccountId, now: i64) -> (r:
    Result<Payout, ErrorCode>)
    requires
        contest.submission_deadline + RECLAIM_GRACE_SECONDS <= i64::MAX,
    ensures
        match reclaim_funds_error(*contest, caller, now) {
            Some(e) => r == Result::<Payout, ErrorCode>::Err(e) && *final(escrow) == *old(escrow),
            None => r == Result::<Payout, ErrorCode>::Ok(
                Payout { to: contest.creator, amount: old(escrow).balance },
            ) && final(escrow).balance == 0,
        },
{
    if caller != contest.creator {
        return Err(ErrorCode::UnauthorizedCreator);
    }
    if contest.status == ContestStatus::Completed {
        return Err(ErrorCode::ContestAlreadyCompleted);
    }
    let reclaim_at = contest.submission_deadline + RECLAIM_GRACE_SECONDS;
    if now < reclaim_at {
        return Err(ErrorCode::ReclaimPeriodNotReached);
    }
    Ok(escrow.reclaim(contest.creator))
}

} // verus!
