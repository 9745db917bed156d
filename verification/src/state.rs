//! The persisted record types: the contest itself, one submission per
//! (contest, participant) pair, and one vote per (contest, judge) pair.

pub mod contest;
pub mod submission;
pub mod vote;
