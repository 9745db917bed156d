//! A trustless contest platform: a sponsor locks a prize into escrow,
//! participants submit entries before a deadline, a fixed panel of judges
//! votes under a quorum rule, and the prize is released to the winner once
//! the approval threshold is met — or returned to the sponsor after a
//! time-locked grace window.
//!
//! The library is the contest core: validation rules, the lifecycle state
//! machine, escrow bookkeeping, the submission ledger, the vote tally and
//! the serialized vote-record format. The host environment (account
//! storage, signature verification, the clock, and the native currency
//! transfer primitive) stays outside: operations take the caller's
//! verified identity and the current time as plain values, and return the
//! transfer legs the host must perform.

pub mod account;
pub mod codec;
pub mod errors;
pub mod escrow;
pub mod instructions;
pub mod state;
pub mod validation;

pub use account::AccountId;
pub use account::ContestKey;
pub use errors::ErrorCode;
pub use escrow::Escrow;
pub use escrow::Payout;
pub use state::contest::Contest;
pub use state::contest::ContestStatus;
pub use state::submission::Submission;
pub use state::submission::SubmissionLedger;
pub use state::vote::JudgeVoteAccount;
pub use state::vote::VoteTally;
pub use instructions::create_contest::create_contest;
pub use instructions::fund_contest::fund_contest;
pub use instructions::enable_gas_sponsorship::enable_gas_sponsorship;
pub use instructions::submit_entry::submit_entry;
pub use instructions::update_submission::update_submission;
pub use instructions::judge_vote::judge_vote;
pub use instructions::distribute_prizes::distribute_prizes;
pub use instructions::reclaim_funds::reclaim_funds;
