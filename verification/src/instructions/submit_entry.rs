//! Submitting an entry to a contest before its deadline.

use vstd::prelude::*;
use crate::account::AccountId;
use crate::errors::ErrorCode;
use crate::state::contest::Contest;
use crate::state::contest::ContestStatus;
use crate::state::submission::Submission;
use crate::validation::check_url;
use crate::validation::url_error;

verus! {

/// Why a submission is rejected, if it is, in the order the rules are
/// checked: the contest must be `Active`, the deadline must not have
/// passed, and the URL must be well-formed.
pub open spec fn submit_entry_error(contest: Contest, url: Seq<u8>, now: i64) -> Option<
    ErrorCode,
> {
    if contest.status != ContestStatus::Active {
        Some(ErrorCode::InvalidContestState)
    } else if now >= contest.submission_deadline {
        Some(ErrorCode::SubmissionDeadlinePassed)
    } else {
        url_error(url)
    }
}

/// The submission counter after one more entry: one higher, capped at the
/// counter's maximum instead of wrapping.
pub open spec fn saturating_inc(n: u32) -> u32 {
    if n == u32::MAX {
        u32::MAX
    } else {
        (n + 1) as u32
    }
}

/// Creates `participant`'s entry in the contest and bumps the contest's
/// submission counter, saturating at the counter's maximum. On success the
/// returned record is keyed by (contest, participant); the ledger's
/// uniqueness constraint, not this operation, rejects a second entry by
/// the same participant. Fails per [`submit_entry_error`], changing
/// nothing.
pub fn submit_entry(
    contest: &mut Contest,
    participant: AccountId,
    submission_url: Vec<u8>,
    now: i64,
) -> (r: Result<Submission, ErrorCode>)
    ensures
        match submit_entry_error(*old(contest), submission_url@, now) {
            Some(e) => r == Result::<Submission, ErrorCode>::Err(e) && *final(contest) == *old(
                contest,
            ),
            None => r == Result::<Submission, ErrorCode>::Ok(
                Submission {
                    participant,
                    contest: old(contest).spec_key(),
                    submission_url,
                    submitted_at: now,
                    last_modified: now,
                },
            ) && *final(contest) == (Contest {
                submission_count: saturating_inc(old(contest).submission_count),
                ..*old(contest)
            }),
        },
        r matches Ok(record) ==> record.wf(),
        old(contest).wf() ==> final(contest).wf(),
{
    if contest.status != ContestStatus::Active {
        return Err(ErrorCode::InvalidContestState);
    }
    if now >= contest.submission_deadline {
        return Err(ErrorCode::SubmissionDeadlinePassed);
    }
    match check_url(&submission_url) {
        Some(e) => {
            return Err(e);
        },
        None => {},
    }
    let record = Submission {
        participant,
        contest: contest.key(),
        submission_url,
        submitted_at: now,
        last_modified: now,
    };
    contest.submission_count = contest.submission_count.saturating_add(1);
    Ok(record)
}

/// The submission counter saturates: a successful submission never leaves
/// the counter smaller than before, and once the counter stands at its
/// maximum it stays pinned there instead of wrapping.
pub proof fn lemma_submission_counter_saturates(n: u32)
    ensures
        saturating_inc(n) >= n,
        n == u32::MAX ==> saturating_inc(n) == u32::MAX,
{
}

} // verus!
