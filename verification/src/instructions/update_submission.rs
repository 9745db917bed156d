//! Updating an existing submission before the deadline.

use vstd::prelude::*;
use crate::account::AccountId;
use crate::errors::ErrorCode;
use crate::state::contest::Contest;
use crate::state::submission::Submission;
use crate::validation::check_url;
use crate::validation::url_error;

verus! {

/// Why an update is rejected, if it is, in the order the rules are
/// checked: only the original participant may update, the deadline must
/// not have passed, and the new URL must be well-formed. Deliberately no
/// check on the contest's status: updating is gated by time alone.
pub open spec fn update_submission_error(
    contest: Contest,
    submission: Submission,
    caller: AccountId,
    url: Seq<u8>,
    now: i64,
) -> Option<ErrorCode> {
    if caller != submission.participant {
        Some(ErrorCode::UnauthorizedParticipant)
    } else if now >= contest.submission_deadline {
        Some(ErrorCode::SubmissionDeadlinePassed)
    } else {
        url_error(url)
    }
}

/// Replaces the submission's URL and stamps the modification time. Only
/// the URL and `last_modified` change; the participant, contest key and
/// original submission time stay. Fails per [`update_submission_error`],
/// changing nothing. The host's record resolution hands in the submission
/// stored under this contest's key, which the precondition states.
pub fn update_submission(
    contest: &Contest,
    submission: &mut Submission,
    caller: AccountId,
    new_url: Vec<u8>,
    now: i64,
) -> (r: Result<(), ErrorCode>)
    requires
        old(submission).contest == contest.spec_key(),
    ensures
        match update_submission_error(*contest, *old(submission), caller, new_url@, now) {
            Some(e) => r == Result::<(), ErrorCode>::Err(e) && *final(submission) == *old(
                submission,
            ),
            None => r == Result::<(), ErrorCode>::Ok(()) && *final(submission) == (Submission {
                submission_url: new_url,
                last_modified: now,
                ..*old(submission)
            }),
        },
        old(submission).wf() ==> final(submission).wf(),
        r is Ok ==> final(submission).wf(),
{
    if caller != submission.participant {
        return Err(ErrorCode::UnauthorizedParticipant);
    }
    if now >= contest.submission_deadline {
        return Err(ErrorCode::SubmissionDeadlinePassed);
    }
    match check_url(&new_url) {
        Some(e) => {
            return Err(e);
        },
        None => {},
    }
    submission.submission_url = new_url;
    submission.last_modified = now;
    Ok(())
}

} // verus!
