//! Submission records and the ledger that stores one entry per
//! (contest, participant) pair.

use vstd::prelude::*;
use crate::account::AccountId;
use crate::account::ContestKey;
use crate::validation::url_error;

verus! {

/// One participant's entry in one contest.
#[derive(Debug)]
pub struct Submission {
    /// Who submitted.
    pub participant: AccountId,
    /// Which contest the entry belongs to.
    pub contest: ContestKey,
    /// Link to the entry, at most 200 bytes, beginning with `https://`.
    pub submission_url: Vec<u8>,
    /// When the entry was first submitted.
    pub submitted_at: i64,
    /// When the entry was last changed.
    pub last_modified: i64,
}

impl Submission {
    /// The structural invariant every stored submission satisfies: its URL
    /// passes validation — at most 200 bytes, beginning with `https://`.
    pub open spec fn wf(self) -> bool {
        url_error(self.submission_url@) is None
    }
}

/// An append-create record store holding at most one submission per
/// (contest, participant) pair. Creation goes through `insert`, which
/// refuses a second record under the same key; records are never deleted.
pub struct SubmissionLedger {
    /// The stored records, in insertion order.
    pub entries: Vec<Submission>,
}

impl SubmissionLedger {
    /// The store's invariant: no two records share a
    /// (contest, participant) key.
    pub open spec fn wf(self) -> bool {
        forall|i: int, j: int|
            0 <= i < j < self.entries@.len() ==> !(self.entries@[i].contest
                == self.entries@[j].contest && self.entries@[i].participant
                == self.entries@[j].participant)
    }

    /// Whether a record under (contest, participant) is stored.
    pub open spec fn spec_contains(self, contest: ContestKey, participant: AccountId) -> bool {
        exists|i: int|
            0 <= i < self.entries@.len() && self.entries@[i].contest == contest
                && self.entries@[i].participant == participant
    }

    /// An empty ledger.
    pub fn new() -> (r: SubmissionLedger)
        ensures
            r.entries@.len() == 0,
            r.wf(),
    {
        SubmissionLedger { entries: Vec::new() }
    }

    /// Whether a record under (contest, participant) is stored.
    pub fn contains(&self, contest: ContestKey, participant: AccountId) -> (r: bool)
        ensures
            r == self.spec_contains(contest, participant),
    {
        let mut i: usize = 0;
        while i < self.entries.len()
            invariant
                0 <= i <= self.entries@.len(),
                forall|j: int|
                    0 <= j < i ==> !(self.entries@[j].contest == contest
                        && self.entries@[j].participant == participant),
            decreases self.entries@.len() - i,
        {
            if self.entries[i].contest == contest && self.entries[i].participant == participant {
                return true;
            }
            i = i + 1;
        }
        false
    }

    /// The index of the record stored under (contest, participant), if any.
    pub fn lookup(&self, contest: ContestKey, participant: AccountId) -> (r: Option<usize>)
        ensures
            match r {
                Some(i) => 0 <= i < self.entries@.len() && self.entries@[i as int].contest
                    == contest && self.entries@[i as int].participant == participant,
                None => !self.spec_contains(contest, participant),
            },
    {
        let mut i: usize = 0;
        while i < self.entries.len()
            invariant
                0 <= i <= self.entries@.len(),
                forall|j: int|
                    0 <= j < i ==> !(self.entries@[j].contest == contest
                        && self.entries@[j].participant == participant),
            decreases self.entries@.len() - i,
        {
            if self.entries[i].contest == contest && self.entries[i].participant == participant {
                return Some(i);
            }
            i = i + 1;
        }
        None
    }

    /// Stores a new record. The store's uniqueness constraint, not an error
    /// code, rejects a second record under the same (contest, participant)
    /// key: `ok` says whether the record was stored, and a refused insert
    /// leaves the store unchanged.
    pub fn insert(&mut self, record: Submission) -> (ok: bool)
        requires
            old(self).wf(),
        ensures
            final(self).wf(),
            ok == !old(self).spec_contains(record.contest, record.participant),
            ok ==> final(self).entries@ == old(self).entries@.push(record),
            !ok ==> final(self).entries@ == old(self).entries@,
    {
        if self.contains(record.contest, record.participant) {
            false
        } else {
            self.entries.push(record);
            true
        }
    }
}

} // verus!
