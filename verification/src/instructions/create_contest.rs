//! Creating a new contest.

use vstd::prelude::*;
use crate::account::AccountId;
use crate::errors::ErrorCode;
use crate::state::contest::Contest;
use crate::state::contest::ContestStatus;
use crate::validation::MAX_TITLE_LEN;
use crate::validation::MAX_DESCRIPTION_LEN;
use crate::validation::MAX_JUDGES;
use crate::validation::MIN_PRIZE_AMOUNT;

verus! {

/// The first rule the contest parameters violate, if any, in the order the
/// rules are checked: title length, description length, too many judges,
/// no judges, unreachable threshold, prize below the minimum, deadline not
/// in the future.
pub open spec fn create_contest_error(
    title: Seq<u8>,
    description: Seq<u8>,
    prize_amount: u64,
    submission_deadline: i64,
    judges: Seq<AccountId>,
    approval_threshold: u8,
    now: i64,
) -> Option<ErrorCode> {
    if title.len() > MAX_TITLE_LEN {
        Some(ErrorCode::TitleTooLong)
    } else if description.len() > MAX_DESCRIPTION_LEN {
        Some(ErrorCode::DescriptionTooLong)
    } else if judges.len() > MAX_JUDGES {
        Some(ErrorCode::TooManyJudges)
    } else if judges.len() == 0 {
        Some(ErrorCode::NoJudges)
    } else if approval_threshold as int > judges.len() {
        Some(ErrorCode::InvalidThreshold)
    } else if prize_amount < MIN_PRIZE_AMOUNT {
        Some(ErrorCode::PrizeTooLow)
    } else if submission_deadline <= now {
        Some(ErrorCode::InvalidDeadline)
    } else {
        None
    }
}

/// The contest record a successful creation yields: the given parameters,
/// status `Setup`, an empty submission counter, creation time `now`, and
/// neither funded nor gas-sponsored.
pub open spec fn spec_created_contest(
    creator: AccountId,
    contest_id: u64,
    title: Vec<u8>,
    description: Vec<u8>,
    prize_amount: u64,
    submission_deadline: i64,
    judges: Vec<AccountId>,
    approval_threshold: u8,
    now: i64,
) -> Contest {
    Contest {
        creator,
        contest_id,
        title,
        description,
        prize_amount,
        submission_deadline,
        judges,
        approval_threshold,
        status: ContestStatus::Setup,
        submission_count: 0,
        created_at: now,
        gas_sponsorship_enabled: false,
        funded: false,
    }
}

/// Creates a new contest for `creator`, validating every parameter first.
/// On success the new record is in `Setup`, unfunded, with no submissions;
/// `now` is the host clock's current timestamp. Fails with the first
/// violated rule of [`create_contest_error`], creating nothing.
pub fn create_contest(
    creator: AccountId,
    contest_id: u64,
    title: Vec<u8>,
    description: Vec<u8>,
    prize_amount: u64,
    submission_deadline: i64,
    judges: Vec<AccountId>,
    approval_threshold: u8,
    now: i64,
) -> (r: Result<Contest, ErrorCode>)
    ensures
        match create_contest_error(
            title@,
            description@,
            prize_amount,
            submission_deadline,
            judges@,
            approval_threshold,
            now,
        ) {
            Some(e) => r == Result::<Contest, ErrorCode>::Err(e),
            None => r == Result::<Contest, ErrorCode>::Ok(
                spec_created_contest(
                    creator,
                    contest_id,
                    title,
                    description,
                    prize_amount,
                    submission_deadline,
                    judges,
                    approval_threshold,
                    now,
                ),
            ),
        },
        r matches Ok(c) ==> c.wf(),
{
    if title.len() > MAX_TITLE_LEN {
        return Err(ErrorCode::TitleTooLong);
    }
    if description.len() > MAX_DESCRIPTION_LEN {
        return Err(ErrorCode::DescriptionTooLong);
    }
    if judges.len() > MAX_JUDGES {
        return Err(ErrorCode::TooManyJudges);
    }
    if judges.len() == 0 {
        return Err(ErrorCode::NoJudges);
    }
    if approval_threshold as usize > judges.len() {
        return Err(ErrorCode::InvalidThreshold);
    }
    if prize_amount < MIN_PRIZE_AMOUNT {
        return Err(ErrorCode::PrizeTooLow);
    }
    if submission_deadline <= now {
        return Err(ErrorCode::InvalidDeadline);
    }
    Ok(
        Contest {
            creator,
            contest_id,
            title,
            description,
            prize_amount,
            submission_deadline,
            judges,
            approval_threshold,
            status: ContestStatus::Setup,
            submission_count: 0,
            created_at: now,
            gas_sponsorship_enabled: false,
            funded: false,
        },
    )
}

} // verus!
