//! Identities and derived record keys.
//!
//! The host's identity substrate hands each caller a 32-byte identity; the
//! library holds it as four 64-bit words (little-endian order) and only ever
//! compares identities for exact equality. A contest's records are keyed by
//! the deterministic seed tuple (creator, contest id), not by embedded
//! references.

use vstd::prelude::*;

verus! {

/// A 32-byte account identity, held as four 64-bit words in little-endian
/// word order. Identities are opaque: the library only compares them.
#[derive(Clone, Copy, Debug, PartialEq, Eq, Structural)]
pub struct AccountId {
    pub w0: u64,
    pub w1: u64,
    pub w2: u64,
    pub w3: u64,
}

/// The deterministic key of one contest and of the records tied to it:
/// the seed tuple (creator identity, numeric contest id).
#[derive(Clone, Copy, Debug, PartialEq, Eq, Structural)]
pub struct ContestKey {
    pub creator: AccountId,
    pub contest_id: u64,
}

/// Whether `judges` holds `id`, by exact identity match.
pub fn judges_contain(judges: &Vec<AccountId>, id: AccountId) -> (r: bool)
    ensures
        r == judges@.contains(id),
{
    let mut i: usize = 0;
    while i < judges.len()
        invariant
            0 <= i <= judges@.len(),
            forall|j: int| 0 <= j < i ==> judges@[j] != id,
        decreases judges@.len() - i,
    {
        if judges[i] == id {
            return true;
        }
        i = i + 1;
    }
    false
}

} // verus!
