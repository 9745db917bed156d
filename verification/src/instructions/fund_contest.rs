//! Funding the contest escrow to activate the contest.

use vstd::prelude::*;
use crate::account::AccountId;
use crate::errors::ErrorCode;
use crate::escrow::Escrow;
use crate::state::contest::Contest;
use crate::state::contest::ContestStatus;

verus! {

/// Why funding is rejected, if it is, in the order the rules are checked:
/// only the creator may fund, the contest must not already be funded, it
/// must still be in `Setup`, and the escrow credit must not overflow.
pub open spec fn fund_contest_error(contest: Contest, escrow: Escrow, caller: AccountId) -> Option<
    ErrorCode,
> {
    if caller != contest.creator {
        Some(ErrorCode::UnauthorizedCreator)
    } else if contest.funded {
        Some(ErrorCode::AlreadyFunded)
    } else if contest.status != ContestStatus::Setup {
        Some(ErrorCode::InvalidContestState)
    } else if escrow.balance + contest.prize_amount > u64::MAX {
        Some(ErrorCode::CalculationOverflow)
    } else {
        None
    }
}

/// The contest as a successful funding leaves it: funded, and moved from
/// `Setup` to `Active`. Funding is the only operation that sets `funded`,
/// so it becomes true exactly once.
pub open spec fn spec_funded_contest(c: Contest) -> Contest {
    Contest { status: ContestStatus::Active, funded: true, ..c }
}

/// The escrow as a successful funding leaves it: credited with the full
/// prize amount. A contest's escrow starts empty and is funded exactly
/// once, so a funded escrow holds exactly the prize.
pub open spec fn spec_funded_escrow(e: Escrow, c: Contest) -> Escrow {
    Escrow { balance: (e.balance + c.prize_amount) as u64 }
}

/// Funds the contest's escrow with the full prize amount and activates the
/// contest. On success the returned amount is the debit leg the host must
/// take from the creator; the escrow credit and the state change happen
/// together or not at all. Fails per [`fund_contest_error`], changing
/// nothing.
pub fn fund_contest(contest: &mut Contest, escrow: &mut Escrow, caller: AccountId) -> (r: Result<
    u64,
    ErrorCode,
>)
    ensures
        match fund_contest_error(*old(contest), *old(escrow), caller) {
            Some(e) => r == Result::<u64, ErrorCode>::Err(e) && *final(contest) == *old(contest)
                && *final(escrow) == *old(escrow),
            None => r == Result::<u64, ErrorCode>::Ok(old(contest).prize_amount) && *final(contest)
                == spec_funded_contest(*old(contest)) && *final(escrow) == spec_funded_escrow(
                *old(escrow),
                *old(contest),
            ),
        },
        old(contest).wf() ==> final(contest).wf(),
{
    if caller != contest.creator {
        return Err(ErrorCode::UnauthorizedCreator);
    }
    if contest.funded {
        return Err(ErrorCode::AlreadyFunded);
    }
    if contest.status != ContestStatus::Setup {
        return Err(ErrorCode::InvalidContestState);
    }
    let prize_amount = contest.prize_amount;
    match escrow.fund(prize_amount) {
        Ok(()) => {},
        Err(e) => {
            return Err(e);
        },
    }
    contest.funded = true;
    contest.status = ContestStatus::Active;
    Ok(prize_amount)
}

/// Funding happens exactly once. Starting from the empty escrow every
/// contest's escrow begins with, a successful funding leaves the escrow
/// holding exactly the prize amount, and on the funded contest every later
/// funding attempt is rejected — for the creator with `AlreadyFunded`,
/// whatever the escrow then holds and however the lifecycle has moved on.
pub proof fn lemma_fund_contest_once(
    c: Contest,
    caller: AccountId,
    later_escrow: Escrow,
    later_caller: AccountId,
)
    requires
        fund_contest_error(c, Escrow { balance: 0 }, caller) is None,
    ensures
        spec_funded_escrow(Escrow { balance: 0 }, c) == (Escrow { balance: c.prize_amount }),
        fund_contest_error(spec_funded_contest(c), later_escrow, later_caller) is Some,
        later_caller == c.creator ==> fund_contest_error(
            spec_funded_contest(c),
            later_escrow,
            later_caller,
        ) == Some(ErrorCode::AlreadyFunded),
{
}

} // verus!
