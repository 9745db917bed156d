//! The contest record and its lifecycle states.

use vstd::prelude::*;
use crate::account::AccountId;
use crate::account::ContestKey;
use crate::validation::MAX_TITLE_LEN;
use crate::validation::MAX_DESCRIPTION_LEN;
use crate::validation::MAX_JUDGES;
use crate::validation::MIN_PRIZE_AMOUNT;

verus! {

/// Contest lifecycle states.
///
/// Funding moves a contest from `Setup` to `Active`; a successful prize
/// distribution moves it from `Active` to `Completed`. `Judging` and
/// `Cancelled` are reserved: no operation currently produces them, and
/// reclaiming drains the escrow without changing the status.
#[derive(Clone, Copy, Debug, PartialEq, Eq, Structural)]
pub enum ContestStatus {
    /// Created, awaiting funding.
    Setup,
    /// Funded and accepting submissions.
    Active,
    /// Reserved for a formal judging period; never produced.
    Judging,
    /// Winner selected, prize distributed.
    Completed,
    /// Reserved; never produced.
    Cancelled,
}

/// One contest's metadata and lifecycle state. One record exists per
/// (creator, contest id) pair; text fields are UTF-8 bytes.
#[derive(Debug)]
pub struct Contest {
    /// Who created the contest.
    pub creator: AccountId,
    /// The creator-chosen numeric identifier.
    pub contest_id: u64,
    /// Contest title, at most 100 bytes.
    pub title: Vec<u8>,
    /// Contest description, at most 500 bytes.
    pub description: Vec<u8>,
    /// The prize, in minor currency units.
    pub prize_amount: u64,
    /// Absolute timestamp (seconds) after which submissions close.
    pub submission_deadline: i64,
    /// The authorized judge panel, 1 to 5 identities.
    pub judges: Vec<AccountId>,
    /// Matching votes needed for consensus; at most the panel size.
    pub approval_threshold: u8,
    /// Lifecycle state.
    pub status: ContestStatus,
    /// How many entries have been submitted; saturates at its maximum.
    pub submission_count: u32,
    /// When the contest was created.
    pub created_at: i64,
    /// Whether a gas-sponsorship pool has been funded for this contest.
    pub gas_sponsorship_enabled: bool,
    /// Whether the escrow has been funded; becomes true exactly once.
    pub funded: bool,
}

impl Contest {
    /// The structural invariant every stored contest satisfies: bounded
    /// text fields, a non-empty panel of at most five judges, a threshold
    /// the panel can reach, a prize at or above the minimum, and a
    /// deadline after the creation time.
    pub open spec fn wf(self) -> bool {
        &&& self.title@.len() <= MAX_TITLE_LEN
        &&& self.description@.len() <= MAX_DESCRIPTION_LEN
        &&& 1 <= self.judges@.len() <= MAX_JUDGES
        &&& self.approval_threshold as int <= self.judges@.len()
        &&& self.prize_amount >= MIN_PRIZE_AMOUNT
        &&& self.submission_deadline > self.created_at
    }

    /// The deterministic key this contest's records are derived from.
    pub open spec fn spec_key(self) -> ContestKey {
        ContestKey { creator: self.creator, contest_id: self.contest_id }
    }

    /// The deterministic key this contest's records are derived from.
    pub fn key(&self) -> (k: ContestKey)
        ensures
            k == self.spec_key(),
    {
        ContestKey { creator: self.creator, contest_id: self.contest_id }
    }
}

} // verus!
