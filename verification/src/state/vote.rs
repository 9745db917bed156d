//! Judge vote records and the tally that stores one vote per
//! (contest, judge) pair.

use vstd::prelude::*;
use crate::account::AccountId;
use crate::account::ContestKey;
use crate::codec::spec_parse_vote;
use crate::codec::spec_encode_vote;
use crate::codec::serialize_vote;
use crate::codec::try_parse_vote;

verus! {

/// One judge's immutable vote in one contest.
#[derive(Clone, Copy, Debug, PartialEq, Eq, Structural)]
pub struct JudgeVoteAccount {
    /// Who voted.
    pub judge: AccountId,
    /// Which contest the vote belongs to.
    pub contest: ContestKey,
    /// The participant this judge chose as the winner.
    pub winner: AccountId,
    /// When the vote was cast.
    pub voted_at: i64,
}

/// The vote store: at most one vote per (contest, judge) pair. A vote is
/// created once and never changed; re-voting is a second creation attempt
/// and is rejected by the store's uniqueness constraint.
pub struct VoteTally {
    /// The stored votes, in insertion order.
    pub votes: Vec<JudgeVoteAccount>,
}

impl VoteTally {
    /// The store's invariant: no two votes share a (contest, judge) key.
    pub open spec fn wf(self) -> bool {
        forall|i: int, j: int|
            0 <= i < j < self.votes@.len() ==> !(self.votes@[i].contest == self.votes@[j].contest
                && self.votes@[i].judge == self.votes@[j].judge)
    }

    /// Whether a vote under (contest, judge) is stored.
    pub open spec fn spec_contains(self, contest: ContestKey, judge: AccountId) -> bool {
        exists|i: int|
            0 <= i < self.votes@.len() && self.votes@[i].contest == contest && self.votes@[i].judge
                == judge
    }

    /// An empty tally.
    pub fn new() -> (r: VoteTally)
        ensures
            r.votes@.len() == 0,
            r.wf(),
    {
        VoteTally { votes: Vec::new() }
    }

    /// Whether a vote under (contest, judge) is stored.
    pub fn contains(&self, contest: ContestKey, judge: AccountId) -> (r: bool)
        ensures
            r == self.spec_contains(contest, judge),
    {
        let mut i: usize = 0;
        while i < self.votes.len()
            invariant
                0 <= i <= self.votes@.len(),
                forall|j: int|
                    0 <= j < i ==> !(self.votes@[j].contest == contest && self.votes@[j].judge
                        == judge),
            decreases self.votes@.len() - i,
        {
            if self.votes[i].contest == contest && self.votes[i].judge == judge {
                return true;
            }
            i = i + 1;
        }
        false
    }

    /// Stores a new vote. The store's uniqueness constraint, not an error
    /// code, rejects a second vote under the same (contest, judge) key:
    /// `ok` says whether the vote was stored, and a refused insert leaves
    /// the store unchanged.
    pub fn record(&mut self, vote: JudgeVoteAccount) -> (ok: bool)
        requires
            old(self).wf(),
        ensures
            final(self).wf(),
            ok == !old(self).spec_contains(vote.contest, vote.judge),
            ok ==> final(self).votes@ == old(self).votes@.push(vote),
            !ok ==> final(self).votes@ == old(self).votes@,
    {
        if self.contains(vote.contest, vote.judge) {
            false
        } else {
            self.votes.push(vote);
            true
        }
    }

    /// Serializes every stored vote into its persisted byte form, in
    /// store order, ready to be handed to prize distribution as candidate
    /// records.
    pub fn export_records(&self) -> (r: Vec<Vec<u8>>)
        ensures
            r@.len() == self.votes@.len(),
            forall|i: int| 0 <= i < r@.len() ==> r@[i]@ == spec_encode_vote(self.votes@[i]),
    {
        let mut out: Vec<Vec<u8>> = Vec::new();
        let mut i: usize = 0;
        while i < self.votes.len()
            invariant
                0 <= i <= self.votes@.len(),
                out@.len() == i,
                forall|j: int| 0 <= j < i ==> out@[j]@ == spec_encode_vote(self.votes@[j]),
            decreases self.votes@.len() - i,
        {
            out.push(serialize_vote(&self.votes[i]));
            i = i + 1;
        }
        out
    }
}

/// Whether one candidate blob parses as a vote record that names this
/// contest and this winner.
pub open spec fn vote_matches(bytes: Seq<u8>, contest: ContestKey, winner: AccountId) -> bool {
    match spec_parse_vote(bytes) {
        Some(v) => v.contest == contest && v.winner == winner,
        None => false,
    }
}

/// How many of the candidate blobs parse as vote records naming this
/// contest and this winner. Blobs that do not parse are skipped, never an
/// error.
pub open spec fn matching_votes(records: Seq<Vec<u8>>, contest: ContestKey, winner: AccountId) -> nat
    decreases records.len(),
{
    if records.len() == 0 {
        0
    } else {
        matching_votes(records.drop_last(), contest, winner) + (if vote_matches(
            records.last()@,
            contest,
            winner,
        ) {
            1nat
        } else {
            0nat
        })
    }
}

/// A stored vote counts for exactly the contest and winner it names: the
/// serialized form of a vote record matches a (contest, winner) query if
/// and only if the vote itself names that contest and that winner.
pub proof fn lemma_recorded_vote_counts(
    v: JudgeVoteAccount,
    contest: ContestKey,
    winner: AccountId,
)
    ensures
        vote_matches(spec_encode_vote(v), contest, winner) == (v.contest == contest && v.winner
            == winner),
{
    crate::codec::lemma_vote_round_trip(v);
}

/// Counts the candidate records that are votes for `winner` in the contest
/// keyed `contest`. A record that fails to parse as a vote is silently
/// skipped, so an untrusted, over-broad candidate set never fails the
/// count.
pub fn count_votes_for(contest: ContestKey, winner: AccountId, candidates: &Vec<Vec<u8>>) -> (count:
    usize)
    ensures
        count == matching_votes(candidates@, contest, winner),
        count <= candidates@.len(),
{
    let mut count: usize = 0;
    let mut i: usize = 0;
    while i < candidates.len()
        invariant
            0 <= i <= candidates@.len(),
            count <= i,
            count == matching_votes(candidates@.subrange(0, i as int), contest, winner),
        decreases candidates@.len() - i,
    {
        let parsed = try_parse_vote(candidates[i].as_slice());
        match parsed {
            Some(v) => {
                if v.contest == contest && v.winner == winner {
                    count = count + 1;
                }
            },
            None => {},
        }
        proof {
            let prefix = candidates@.subrange(0, i as int + 1);
            assert(prefix.drop_last() =~= candidates@.subrange(0, i as int));
            assert(prefix.last() == candidates@[i as int]);
        }
        i = i + 1;
    }
    proof {
        assert(candidates@.subrange(0, candidates@.len() as int) =~= candidates@);
    }
    count
}

} // verus!
