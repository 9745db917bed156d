//! The serialized vote-record format: layout, round trip and tolerant
//! parsing.

use solarena::account::{AccountId, ContestKey};
use solarena::state::vote::JudgeVoteAccount;
use solarena::codec::{serialize_vote, try_parse_vote, VOTE_RECORD_LEN, VOTE_RECORD_TAG};

fn sample_vote() -> JudgeVoteAccount {
    JudgeVoteAccount {
        judge: AccountId { w0: 1, w1: 2, w2: 3, w3: 4 },
        contest: ContestKey {
            creator: AccountId { w0: 5, w1: 6, w2: 7, w3: 8 },
            contest_id: 42,
        },
        winner: AccountId { w0: 9, w1: 10, w2: 11, w3: 12 },
        voted_at: 1_234_567_890,
    }
}

#[test]
fn serialized_vote_round_trips() {
    let v = sample_vote();
    let bytes = serialize_vote(&v);
    assert_eq!(bytes.len(), VOTE_RECORD_LEN);
    assert_eq!(try_parse_vote(&bytes), Some(v));
}

#[test]
fn serialized_vote_layout_is_fixed() {
    let v = sample_vote();
    let bytes = serialize_vote(&v);
    assert_eq!(&bytes[0..8], &VOTE_RECORD_TAG.to_le_bytes());
    assert_eq!(&bytes[0..8], b"JUDGVOTE");
    assert_eq!(&bytes[8..16], &1u64.to_le_bytes());
    assert_eq!(&bytes[40..48], &5u64.to_le_bytes());
    assert_eq!(&bytes[72..80], &42u64.to_le_bytes());
    assert_eq!(&bytes[80..88], &9u64.to_le_bytes());
    assert_eq!(&bytes[112..120], &1_234_567_890u64.to_le_bytes());
}

#[test]
fn negative_timestamp_round_trips() {
    let mut v = sample_vote();
    v.voted_at = -1;
    let bytes = serialize_vote(&v);
    assert_eq!(&bytes[112..120], &u64::MAX.to_le_bytes());
    assert_eq!(try_parse_vote(&bytes), Some(v));
    v.voted_at = i64::MIN;
    assert_eq!(try_parse_vote(&serialize_vote(&v)), Some(v));
    v.voted_at = i64::MAX;
    assert_eq!(try_parse_vote(&serialize_vote(&v)), Some(v));
}

#[test]
fn parse_rejects_wrong_length() {
    let v = sample_vote();
    let mut bytes = serialize_vote(&v);
    bytes.push(0);
    assert_eq!(try_parse_vote(&bytes), None);
    assert_eq!(try_parse_vote(&bytes[0..119]), None);
    assert_eq!(try_parse_vote(&[]), None);
}

#[test]
fn parse_rejects_wrong_tag() {
    let v = sample_vote();
    let mut bytes = serialize_vote(&v);
    bytes[0] ^= 0xff;
    assert_eq!(try_parse_vote(&bytes), None);
    assert_eq!(try_parse_vote(&vec![0u8; VOTE_RECORD_LEN]), None);
}
