//! Distributing the prize to the winner once quorum consensus is reached.

use vstd::prelude::*;
use crate::account::AccountId;
use crate::errors::ErrorCode;
use crate::escrow::Escrow;
use crate::escrow::Payout;
use crate::state::contest::Contest;
use crate::state::contest::ContestStatus;
use crate::state::vote::count_votes_for;
use crate::state::vote::matching_votes;
use crate::instructions::reclaim_funds::reclaim_funds_error;

verus! {

/// Why distribution is rejected, if it is, in the order the rules are
/// checked: the contest must be funded and `Active`, the candidate records
/// must hold at least the approval threshold of votes for this winner in
/// this contest, and the escrow must cover the prize.
pub open spec fn distribute_prizes_error(
    contest: Contest,
    escrow: Escrow,
    winner: AccountId,
    candidates: Seq<Vec<u8>>,
) -> Option<ErrorCode> {
    if !contest.funded {
        Some(ErrorCode::ContestNotFunded)
    } else if contest.status != ContestStatus::Active {
        Some(ErrorCode::InvalidContestState)
    } else if matching_votes(candidates, contest.spec_key(), winner) < contest.approval_threshold
        as nat {
        Some(ErrorCode::ConsensusNotReached)
    } else if contest.prize_amount > escrow.balance {
        Some(ErrorCode::CalculationOverflow)
    } else {
        None
    }
}

/// Counts, among the untrusted candidate records, the votes for `winner`
/// in this contest — records that fail to parse as votes are skipped — and,
/// exactly when the count reaches the contest's approval threshold on a
/// funded, `Active` contest whose escrow covers the prize, debits the
/// escrow by the prize, reports the credit leg owed to the winner, and
/// completes the contest. Fails per [`distribute_prizes_error`], changing
/// nothing.
pub fn distribute_prizes(
    contest: &mut Contest,
    escrow: &mut Escrow,
    winner: AccountId,
    candidates: &Vec<Vec<u8>>,
) -> (r: Result<Payout, ErrorCode>)
    ensures
        match distribute_prizes_error(*old(contest), *old(escrow), winner, candidates@) {
            Some(e) => r == Result::<Payout, ErrorCode>::Err(e) && *final(contest) == *old(contest)
                && *final(escrow) == *old(escrow),
            None => r == Result::<Payout, ErrorCode>::Ok(
                Payout { to: winner, amount: old(contest).prize_amount },
            ) && final(escrow).balance == old(escrow).balance - old(contest).prize_amount
                && *final(contest) == (Contest {
                status: ContestStatus::Completed,
                ..*old(contest)
            }),
        },
        old(contest).wf() ==> final(contest).wf(),
{
    if !contest.funded {
        return Err(ErrorCode::ContestNotFunded);
    }
    if contest.status != ContestStatus::Active {
        return Err(ErrorCode::InvalidContestState);
    }
    let winner_votes = count_votes_for(contest.key(), winner, candidates);
    if winner_votes < contest.approval_threshold as usize {
        return Err(ErrorCode::ConsensusNotReached);
    }
    let payout = match escrow.disburse(contest.prize_amount, winner) {
        Ok(p) => p,
        Err(e) => {
            return Err(e);
        },
    };
    contest.status = ContestStatus::Completed;
    Ok(payout)
}

/// The quorum rule decides distribution. On a funded, `Active` contest
/// whose escrow covers the prize, distribution succeeds exactly when the
/// candidate records hold at least the approval threshold of votes naming
/// this contest and this winner; with fewer it fails, and with
/// `ConsensusNotReached`. The coverage premise cannot be dropped: a
/// reclaim can drain an `Active` contest's escrow, and an uncovered debit
/// is rejected as `CalculationOverflow` even at quorum.
pub proof fn lemma_quorum_decides_distribution(
    contest: Contest,
    escrow: Escrow,
    winner: AccountId,
    candidates: Seq<Vec<u8>>,
)
    requires
        contest.funded,
        contest.status == ContestStatus::Active,
        contest.prize_amount <= escrow.balance,
    ensures
        (distribute_prizes_error(contest, escrow, winner, candidates) is None) == (matching_votes(
            candidates,
            contest.spec_key(),
            winner,
        ) >= contest.approval_threshold as nat),
        matching_votes(candidates, contest.spec_key(), winner) < contest.approval_threshold
            as nat ==> distribute_prizes_error(contest, escrow, winner, candidates) == Some(
            ErrorCode::ConsensusNotReached,
        ),
{
}

/// Funds move at most once. A completed contest blocks every further
/// movement of its escrow: a second distribution is rejected, whatever
/// candidate records are supplied, and so is a reclaim, whoever calls and
/// however late.
pub proof fn lemma_completed_contest_locks_funds(
    contest: Contest,
    escrow: Escrow,
    winner: AccountId,
    candidates: Seq<Vec<u8>>,
    caller: AccountId,
    now: i64,
)
    requires
        contest.status == ContestStatus::Completed,
    ensures
        distribute_prizes_error(contest, escrow, winner, candidates) is Some,
        reclaim_funds_error(contest, caller, now) is Some,
{
}

} // verus!
