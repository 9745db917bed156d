//! Contest creation, funding and gas sponsorship.

use solarena::account::AccountId;
use solarena::errors::ErrorCode;
use solarena::escrow::Escrow;
use solarena::state::contest::{Contest, ContestStatus};
use solarena::instructions::create_contest::create_contest;
use solarena::instructions::fund_contest::fund_contest;
use solarena::instructions::enable_gas_sponsorship::enable_gas_sponsorship;

fn acc(n: u64) -> AccountId {
    AccountId { w0: n, w1: 0, w2: 0, w3: 0 }
}

fn valid_contest(creator: AccountId) -> Contest {
    create_contest(
        creator,
        1,
        b"title".to_vec(),
        b"description".to_vec(),
        10_000_000,
        1_000,
        vec![acc(11), acc(12), acc(13)],
        2,
        100,
    )
    .unwrap()
}

#[test]
fn create_contest_yields_setup_unfunded_empty() {
    let creator = acc(1);
    let c = valid_contest(creator);
    assert_eq!(c.status, ContestStatus::Setup);
    assert!(!c.funded);
    assert_eq!(c.submission_count, 0);
    assert_eq!(c.creator, creator);
    assert_eq!(c.contest_id, 1);
    assert_eq!(c.prize_amount, 10_000_000);
    assert_eq!(c.submission_deadline, 1_000);
    assert_eq!(c.created_at, 100);
    assert!(!c.gas_sponsorship_enabled);
}

#[test]
fn create_contest_rejects_long_title() {
    let r = create_contest(
        acc(1),
        1,
        vec![b'x'; 101],
        Vec::new(),
        10_000_000,
        1_000,
        vec![acc(2)],
        1,
        100,
    );
    assert_eq!(r.unwrap_err(), ErrorCode::TitleTooLong);
}

#[test]
fn create_contest_rejects_long_description() {
    let r = create_contest(
        acc(1),
        1,
        Vec::new(),
        vec![b'x'; 501],
        10_000_000,
        1_000,
        vec![acc(2)],
        1,
        100,
    );
    assert_eq!(r.unwrap_err(), ErrorCode::DescriptionTooLong);
}

#[test]
fn create_contest_rejects_six_judges() {
    let judges = vec![acc(2), acc(3), acc(4), acc(5), acc(6), acc(7)];
    let r = create_contest(acc(1), 1, Vec::new(), Vec::new(), 10_000_000, 1_000, judges, 1, 100);
    assert_eq!(r.unwrap_err(), ErrorCode::TooManyJudges);
}

#[test]
fn create_contest_rejects_empty_panel() {
    let r = create_contest(acc(1), 1, Vec::new(), Vec::new(), 10_000_000, 1_000, Vec::new(), 0, 100);
    assert_eq!(r.unwrap_err(), ErrorCode::NoJudges);
}

#[test]
fn create_contest_rejects_unreachable_threshold() {
    let r = create_contest(
        acc(1),
        1,
        Vec::new(),
        Vec::new(),
        10_000_000,
        1_000,
        vec![acc(2), acc(3)],
        3,
        100,
    );
    assert_eq!(r.unwrap_err(), ErrorCode::InvalidThreshold);
}

#[test]
fn create_contest_rejects_low_prize() {
    let r = create_contest(acc(1), 1, Vec::new(), Vec::new(), 9_999_999, 1_000, vec![acc(2)], 1, 100);
    assert_eq!(r.unwrap_err(), ErrorCode::PrizeTooLow);
}

#[test]
fn create_contest_rejects_past_deadline() {
    let r = create_contest(acc(1), 1, Vec::new(), Vec::new(), 10_000_000, 100, vec![acc(2)], 1, 100);
    assert_eq!(r.unwrap_err(), ErrorCode::InvalidDeadline);
}

#[test]
fn create_contest_accepts_boundary_sizes() {
    let judges = vec![acc(2), acc(3), acc(4), acc(5), acc(6)];
    let c = create_contest(
        acc(1),
        7,
        vec![b't'; 100],
        vec![b'd'; 500],
        10_000_000,
        101,
        judges,
        5,
        100,
    )
    .unwrap();
    assert_eq!(c.status, ContestStatus::Setup);
    assert_eq!(c.judges.len(), 5);
}

#[test]
fn fund_contest_credits_escrow_and_activates() {
    let creator = acc(1);
    let mut c = valid_contest(creator);
    let mut escrow = Escrow::new();
    let debit = fund_contest(&mut c, &mut escrow, creator).unwrap();
    assert_eq!(debit, 10_000_000);
    assert_eq!(escrow.balance, 10_000_000);
    assert_eq!(c.status, ContestStatus::Active);
    assert!(c.funded);
}

#[test]
fn fund_contest_second_call_fails() {
    let creator = acc(1);
    let mut c = valid_contest(creator);
    let mut escrow = Escrow::new();
    fund_contest(&mut c, &mut escrow, creator).unwrap();
    let again = fund_contest(&mut c, &mut escrow, creator);
    assert_eq!(again.unwrap_err(), ErrorCode::AlreadyFunded);
    assert_eq!(escrow.balance, 10_000_000);
    assert_eq!(c.status, ContestStatus::Active);
}

#[test]
fn fund_contest_rejects_funded_setup_contest() {
    let creator = acc(1);
    let mut c = valid_contest(creator);
    c.funded = true;
    let mut escrow = Escrow::new();
    let r = fund_contest(&mut c, &mut escrow, creator);
    assert_eq!(r.unwrap_err(), ErrorCode::AlreadyFunded);
    assert_eq!(escrow.balance, 0);
}

#[test]
fn fund_contest_needs_setup_state() {
    let creator = acc(1);
    let mut c = valid_contest(creator);
    c.status = ContestStatus::Active;
    let mut escrow = Escrow::new();
    let r = fund_contest(&mut c, &mut escrow, creator);
    assert_eq!(r.unwrap_err(), ErrorCode::InvalidContestState);
    assert_eq!(escrow.balance, 0);
    assert!(!c.funded);
}

#[test]
fn fund_contest_rejects_other_caller() {
    let mut c = valid_contest(acc(1));
    let mut escrow = Escrow::new();
    let r = fund_contest(&mut c, &mut escrow, acc(2));
    assert_eq!(r.unwrap_err(), ErrorCode::UnauthorizedCreator);
    assert_eq!(c.status, ContestStatus::Setup);
    assert!(!c.funded);
}

#[test]
fn fund_contest_reports_escrow_overflow() {
    let creator = acc(1);
    let mut c = valid_contest(creator);
    let mut escrow = Escrow { balance: u64::MAX - 1 };
    let r = fund_contest(&mut c, &mut escrow, creator);
    assert_eq!(r.unwrap_err(), ErrorCode::CalculationOverflow);
    assert_eq!(escrow.balance, u64::MAX - 1);
    assert_eq!(c.status, ContestStatus::Setup);
    assert!(!c.funded);
}

#[test]
fn enable_gas_sponsorship_credits_pool() {
    let creator = acc(1);
    let mut c = valid_contest(creator);
    let mut escrow = Escrow::new();
    fund_contest(&mut c, &mut escrow, creator).unwrap();
    let mut pool = Escrow::new();
    let debit = enable_gas_sponsorship(&mut c, &mut pool, creator, 5_000).unwrap();
    assert_eq!(debit, 5_000);
    assert_eq!(pool.balance, 5_000);
    assert!(c.gas_sponsorship_enabled);
    assert_eq!(c.status, ContestStatus::Active);
}

#[test]
fn enable_gas_sponsorship_needs_active_contest() {
    let creator = acc(1);
    let mut c = valid_contest(creator);
    let mut pool = Escrow::new();
    let r = enable_gas_sponsorship(&mut c, &mut pool, creator, 5_000);
    assert_eq!(r.unwrap_err(), ErrorCode::InvalidContestState);
    assert!(!c.gas_sponsorship_enabled);
}

#[test]
fn enable_gas_sponsorship_needs_creator() {
    let creator = acc(1);
    let mut c = valid_contest(creator);
    let mut escrow = Escrow::new();
    fund_contest(&mut c, &mut escrow, creator).unwrap();
    let mut pool = Escrow::new();
    let r = enable_gas_sponsorship(&mut c, &mut pool, acc(2), 5_000);
    assert_eq!(r.unwrap_err(), ErrorCode::UnauthorizedCreator);
    assert!(!c.gas_sponsorship_enabled);
}
