//! The serialized vote-record format.
//!
//! A vote is persisted as a fixed-size structure: an 8-byte record tag,
//! then the judge, the contest key (creator, then contest id), the chosen
//! winner, and the vote timestamp, every word little-endian. Field order
//! and sizes are part of the storage contract. Prize distribution is
//! handed an untrusted candidate set of raw records: a blob that does not
//! parse as a vote record is silently skipped, so parsing is total and
//! never fails the whole count.

use vstd::prelude::*;
use vstd::bytes::spec_u64_to_le_bytes;
use vstd::bytes::spec_u64_from_le_bytes;
use vstd::bytes::lemma_auto_spec_u64_to_from_le_bytes;
use vstd::bytes::u64_to_le_bytes;
use vstd::bytes::u64_from_le_bytes;
use vstd::slice::slice_subrange;
use crate::account::AccountId;
use crate::account::ContestKey;
use crate::state::vote::JudgeVoteAccount;

verus! {

/// The tag opening every serialized vote record: the ASCII bytes
/// `JUDGVOTE`, read as one little-endian 64-bit word.
pub const VOTE_RECORD_TAG: u64 = 0x45544F56_4744554A;

/// The exact size of a serialized vote record, in bytes: the tag, three
/// identities, the contest id and the timestamp.
pub const VOTE_RECORD_LEN: usize = 120;

/// The timestamp's two's-complement bit pattern, as the 64-bit word that
/// is stored.
pub open spec fn i64_bits(x: i64) -> u64 {
    if x >= 0 {
        x as u64
    } else {
        (x + 0x1_0000_0000_0000_0000) as u64
    }
}

/// The timestamp a stored 64-bit word stands for; inverse of [`i64_bits`].
pub open spec fn i64_from_bits(b: u64) -> i64 {
    if b < 0x8000_0000_0000_0000 {
        b as i64
    } else {
        (b - 0x1_0000_0000_0000_0000) as i64
    }
}

/// Reading back a stored timestamp word yields the timestamp itself.
pub proof fn lemma_i64_bits_round_trip(x: i64)
    ensures
        i64_from_bits(i64_bits(x)) == x,
{
}

/// The timestamp's two's-complement bit pattern, as the 64-bit word that
/// is stored.
pub fn i64_to_bits(x: i64) -> (r: u64)
    ensures
        r == i64_bits(x),
{
    if x >= 0 {
        x as u64
    } else {
        let shifted: u64 = (x + 1 + i64::MAX) as u64;
        shifted + 0x8000_0000_0000_0000
    }
}

/// The timestamp a stored 64-bit word stands for; inverse of
/// [`i64_to_bits`].
pub fn i64_of_bits(b: u64) -> (r: i64)
    ensures
        r == i64_from_bits(b),
{
    if b < 0x8000_0000_0000_0000 {
        b as i64
    } else {
        let shifted: i64 = (b - 0x8000_0000_0000_0000) as i64;
        shifted - i64::MAX - 1
    }
}

/// The 32 bytes an identity is stored as: its four words, little-endian,
/// in word order.
pub open spec fn spec_id_bytes(id: AccountId) -> Seq<u8> {
    spec_u64_to_le_bytes(id.w0) + spec_u64_to_le_bytes(id.w1) + spec_u64_to_le_bytes(id.w2)
        + spec_u64_to_le_bytes(id.w3)
}

/// The identity 32 stored bytes stand for; inverse of [`spec_id_bytes`].
pub open spec fn spec_parse_id(s: Seq<u8>) -> AccountId
    recommends
        s.len() == 32,
{
    AccountId {
        w0: spec_u64_from_le_bytes(s.subrange(0, 8)),
        w1: spec_u64_from_le_bytes(s.subrange(8, 16)),
        w2: spec_u64_from_le_bytes(s.subrange(16, 24)),
        w3: spec_u64_from_le_bytes(s.subrange(24, 32)),
    }
}

/// The exact bytes a vote record is stored as.
pub open spec fn spec_encode_vote(v: JudgeVoteAccount) -> Seq<u8> {
    spec_u64_to_le_bytes(VOTE_RECORD_TAG) + spec_id_bytes(v.judge) + spec_id_bytes(
        v.contest.creator,
    ) + spec_u64_to_le_bytes(v.contest.contest_id) + spec_id_bytes(v.winner) + spec_u64_to_le_bytes(
        i64_bits(v.voted_at),
    )
}

/// What a candidate blob stands for: the vote record it encodes, or `None`
/// when it has the wrong size or does not open with the record tag.
pub open spec fn spec_parse_vote(s: Seq<u8>) -> Option<JudgeVoteAccount> {
    if s.len() == VOTE_RECORD_LEN && spec_u64_from_le_bytes(s.subrange(0, 8)) == VOTE_RECORD_TAG {
        Some(
            JudgeVoteAccount {
                judge: spec_parse_id(s.subrange(8, 40)),
                contest: ContestKey {
                    creator: spec_parse_id(s.subrange(40, 72)),
                    contest_id: spec_u64_from_le_bytes(s.subrange(72, 80)),
                },
                winner: spec_parse_id(s.subrange(80, 112)),
                voted_at: i64_from_bits(spec_u64_from_le_bytes(s.subrange(112, 120))),
            },
        )
    } else {
        None
    }
}

/// Parsing an identity's stored bytes yields the identity itself.
pub proof fn lemma_id_round_trip(id: AccountId)
    ensures
        spec_id_bytes(id).len() == 32,
        spec_parse_id(spec_id_bytes(id)) == id,
{
    lemma_auto_spec_u64_to_from_le_bytes();
    let s = spec_id_bytes(id);
    assert(s.subrange(0, 8) =~= spec_u64_to_le_bytes(id.w0));
    assert(s.subrange(8, 16) =~= spec_u64_to_le_bytes(id.w1));
    assert(s.subrange(16, 24) =~= spec_u64_to_le_bytes(id.w2));
    assert(s.subrange(24, 32) =~= spec_u64_to_le_bytes(id.w3));
}

/// Serialization round trip: every stored vote record parses back to the
/// vote itself. With [`spec_parse_vote`] total and every other blob
/// skipped, a candidate set can safely mix well-formed records with
/// foreign or corrupted ones.
pub proof fn lemma_vote_round_trip(v: JudgeVoteAccount)
    ensures
        spec_encode_vote(v).len() == VOTE_RECORD_LEN,
        spec_parse_vote(spec_encode_vote(v)) == Some(v),
{
    lemma_auto_spec_u64_to_from_le_bytes();
    lemma_id_round_trip(v.judge);
    lemma_id_round_trip(v.contest.creator);
    lemma_id_round_trip(v.winner);
    let s = spec_encode_vote(v);
    assert(s.subrange(0, 8) =~= spec_u64_to_le_bytes(VOTE_RECORD_TAG));
    assert(s.subrange(8, 40) =~= spec_id_bytes(v.judge));
    assert(s.subrange(40, 72) =~= spec_id_bytes(v.contest.creator));
    assert(s.subrange(72, 80) =~= spec_u64_to_le_bytes(v.contest.contest_id));
    assert(s.subrange(80, 112) =~= spec_id_bytes(v.winner));
    assert(s.subrange(112, 120) =~= spec_u64_to_le_bytes(i64_bits(v.voted_at)));
    lemma_i64_bits_round_trip(v.voted_at);
}

/// Appends an identity's 32 stored bytes to `out`.
fn push_id_bytes(out: &mut Vec<u8>, id: AccountId)
    ensures
        final(out)@ == old(out)@ + spec_id_bytes(id),
{
    let mut w0 = u64_to_le_bytes(id.w0);
    let mut w1 = u64_to_le_bytes(id.w1);
    let mut w2 = u64_to_le_bytes(id.w2);
    let mut w3 = u64_to_le_bytes(id.w3);
    out.append(&mut w0);
    out.append(&mut w1);
    out.append(&mut w2);
    out.append(&mut w3);
    assert(final(out)@ =~= old(out)@ + spec_id_bytes(id));
}

/// Serializes a vote record into its stored bytes.
pub fn serialize_vote(v: &JudgeVoteAccount) -> (r: Vec<u8>)
    ensures
        r@ == spec_encode_vote(*v),
{
    let mut out = u64_to_le_bytes(VOTE_RECORD_TAG);
    push_id_bytes(&mut out, v.judge);
    push_id_bytes(&mut out, v.contest.creator);
    let mut id_word = u64_to_le_bytes(v.contest.contest_id);
    out.append(&mut id_word);
    push_id_bytes(&mut out, v.winner);
    let mut stamp = u64_to_le_bytes(i64_to_bits(v.voted_at));
    out.append(&mut stamp);
    assert(out@ =~= spec_encode_vote(*v));
    out
}

/// Reads the identity stored at `offset` in `bytes`.
fn read_id(bytes: &[u8], offset: usize) -> (r: AccountId)
    requires
        offset + 32 <= bytes@.len(),
    ensures
        r == spec_parse_id(bytes@.subrange(offset as int, offset as int + 32)),
{
    let n = bytes.len();
    assert(offset + 32 <= n);
    let w0 = u64_from_le_bytes(slice_subrange(bytes, offset, offset + 8));
    let w1 = u64_from_le_bytes(slice_subrange(bytes, offset + 8, offset + 16));
    let w2 = u64_from_le_bytes(slice_subrange(bytes, offset + 16, offset + 24));
    let w3 = u64_from_le_bytes(slice_subrange(bytes, offset + 24, offset + 32));
    proof {
        let s = bytes@.subrange(offset as int, offset as int + 32);
        assert(bytes@.subrange(offset as int, offset as int + 8) =~= s.subrange(0, 8));
        assert(bytes@.subrange(offset as int + 8, offset as int + 16) =~= s.subrange(8, 16));
        assert(bytes@.subrange(offset as int + 16, offset as int + 24) =~= s.subrange(16, 24));
        assert(bytes@.subrange(offset as int + 24, offset as int + 32) =~= s.subrange(24, 32));
    }
    AccountId { w0, w1, w2, w3 }
}

/// Tries to read a candidate blob as a vote record. Returns `None`, and
/// nothing else, for a blob of the wrong size or without the record tag.
pub fn try_parse_vote(bytes: &[u8]) -> (r: Option<JudgeVoteAccount>)
    ensures
        r == spec_parse_vote(bytes@),
{
    if bytes.len() != VOTE_RECORD_LEN {
        return None;
    }
    let tag = u64_from_le_bytes(slice_subrange(bytes, 0, 8));
    if tag != VOTE_RECORD_TAG {
        return None;
    }
    let judge = read_id(bytes, 8);
    let creator = read_id(bytes, 40);
    let contest_id = u64_from_le_bytes(slice_subrange(bytes, 72, 80));
    let winner = read_id(bytes, 80);
    let stamp = u64_from_le_bytes(slice_subrange(bytes, 112, 120));
    Some(
        JudgeVoteAccount {
            judge,
            contest: ContestKey { creator, contest_id },
            winner,
            voted_at: i64_of_bits(stamp),
        },
    )
}

} // verus!
