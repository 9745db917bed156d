//! The error taxonomy: every way an operation can be rejected.
//!
//! Every precondition check happens before any mutation; the first failing
//! check aborts the whole operation with no partial effect, and the caller
//! receives the specific error kind.

use vstd::prelude::*;

verus! {

/// Why an operation was rejected. Operations fail fast: the first violated
/// rule decides the error, and no state is touched on failure.
#[derive(Clone, Copy, Debug, PartialEq, Eq, Structural)]
pub enum ErrorCode {
    /// The title exceeds 100 bytes.
    TitleTooLong,
    /// The description exceeds 500 bytes.
    DescriptionTooLong,
    /// More than 5 judges were named.
    TooManyJudges,
    /// No judge was named.
    NoJudges,
    /// The approval threshold exceeds the number of judges.
    InvalidThreshold,
    /// The prize is below the 10_000_000 minor-unit minimum.
    PrizeTooLow,
    /// The submission deadline is not in the future.
    InvalidDeadline,
    /// The contest is not in the lifecycle phase this operation needs.
    InvalidContestState,
    /// The contest escrow has already been funded.
    AlreadyFunded,
    /// An escrow credit or debit would overflow the balance.
    CalculationOverflow,
    /// The submission URL exceeds 200 bytes.
    UrlTooLong,
    /// The submission URL does not begin with the secure-transport prefix.
    InvalidUrl,
    /// The submission deadline has passed.
    SubmissionDeadlinePassed,
    /// Only the original participant may update this submission.
    UnauthorizedParticipant,
    /// Only the contest creator may perform this action.
    UnauthorizedCreator,
    /// Only an identity on the contest's judge panel may vote.
    UnauthorizedJudge,
    /// The submission period has not ended yet.
    SubmissionPeriodNotEnded,
    /// The contest escrow has not been funded.
    ContestNotFunded,
    /// The required consensus threshold was not reached.
    ConsensusNotReached,
    /// The contest has already been completed.
    ContestAlreadyCompleted,
    /// The reclaim time-lock has not yet elapsed.
    ReclaimPeriodNotReached,
}

} // verus!
