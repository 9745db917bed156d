//! The externally exposed operations, one per module. Each executes as a
//! single atomic unit against one contest's records: every precondition is
//! checked before any mutation, and the first failing check aborts the
//! whole operation with the specific error and no partial effect.
//!
//! The host hands each operation the caller's verified identity and, where
//! timing matters, the current timestamp; an operation that moves funds
//! reports the transfer leg the host must perform.

pub mod create_contest;
pub mod fund_contest;
pub mod enable_gas_sponsorship;
pub mod submit_entry;
pub mod update_submission;
pub mod judge_vote;
pub mod distribute_prizes;
pub mod reclaim_funds;
