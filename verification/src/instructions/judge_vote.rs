//! A judge casting a vote for a winner.

use vstd::prelude::*;
use crate::account::AccountId;
use crate::account::judges_contain;
use crate::errors::ErrorCode;
use crate::state::contest::Contest;
use crate::state::contest::ContestStatus;
use crate::state::vote::JudgeVoteAccount;

verus! {

/// Why a vote is rejected, if it is, in the order the rules are checked:
/// the contest must be `Active`, the submission period must have ended,
/// and the voter must be on the contest's judge panel.
pub open spec fn judge_vote_error(contest: Contest, judge: AccountId, now: i64) -> Option<
    ErrorCode,
> {
    if contest.status != ContestStatus::Active {
        Some(ErrorCode::InvalidContestState)
    } else if now < contest.submission_deadline {
        Some(ErrorCode::SubmissionPeriodNotEnded)
    } else if !contest.judges@.contains(judge) {
        Some(ErrorCode::UnauthorizedJudge)
    } else {
        None
    }
}

/// Casts `judge`'s vote for `winner` in the contest. On success the
/// returned record is keyed by (contest, judge); the vote store's
/// uniqueness constraint, not this operation, rejects a second vote by the
/// same judge, so each vote is immutable once stored. Fails per
/// [`judge_vote_error`], creating nothing.
pub fn judge_vote(contest: &Contest, judge: AccountId, winner: AccountId, now: i64) -> (r: Result<
    JudgeVoteAccount,
    ErrorCode,
>)
    ensures
        match judge_vote_error(*contest, judge, now) {
            Some(e) => r == Result::<JudgeVoteAccount, ErrorCode>::Err(e),
            None => r == Result::<JudgeVoteAccount, ErrorCode>::Ok(
                JudgeVoteAccount { judge, contest: contest.spec_key(), winner, voted_at: now },
            ),
        },
{
    if contest.status != ContestStatus::Active {
        return Err(ErrorCode::InvalidContestState);
    }
    if now < contest.submission_deadline {
        return Err(ErrorCode::SubmissionPeriodNotEnded);
    }
    if !judges_contain(&contest.judges, judge) {
        return Err(ErrorCode::UnauthorizedJudge);
    }
    Ok(JudgeVoteAccount { judge, contest: contest.key(), winner, voted_at: now })
}

} // verus!
