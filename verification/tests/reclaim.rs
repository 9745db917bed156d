//! The reclaim time-lock: 30 days after the deadline, boundary inclusive.

use solarena::account::AccountId;
use solarena::errors::ErrorCode;
use solarena::escrow::{Escrow, Payout};
use solarena::state::contest::{Contest, ContestStatus};
use solarena::instructions::create_contest::create_contest;
use solarena::instructions::fund_contest::fund_contest;
use solarena::instructions::reclaim_funds::{reclaim_funds, RECLAIM_GRACE_SECONDS};

fn acc(n: u64) -> AccountId {
    AccountId { w0: n, w1: 0, w2: 0, w3: 0 }
}

const DEADLINE: i64 = 1_000;

fn funded_contest(creator: AccountId, escrow: &mut Escrow) -> Contest {
    let mut c = create_contest(
        creator,
        1,
        Vec::new(),
        Vec::new(),
        10_000_000,
        DEADLINE,
        vec![acc(11)],
        1,
        100,
    )
    .unwrap();
    fund_contest(&mut c, escrow, creator).unwrap();
    c
}

#[test]
fn reclaim_at_29_days_fails() {
    let creator = acc(1);
    let mut escrow = Escrow::new();
    let c = funded_contest(creator, &mut escrow);
    let at_29_days = DEADLINE + 29 * 24 * 60 * 60;
    let r = reclaim_funds(&c, &mut escrow, creator, at_29_days);
    assert_eq!(r.unwrap_err(), ErrorCode::ReclaimPeriodNotReached);
    assert_eq!(escrow.balance, 10_000_000);
}

#[test]
fn reclaim_one_second_short_fails() {
    let creator = acc(1);
    let mut escrow = Escrow::new();
    let c = funded_contest(creator, &mut escrow);
    let r = reclaim_funds(&c, &mut escrow, creator, DEADLINE + RECLAIM_GRACE_SECONDS - 1);
    assert_eq!(r.unwrap_err(), ErrorCode::ReclaimPeriodNotReached);
}

#[test]
fn reclaim_at_exactly_30_days_succeeds() {
    let creator = acc(1);
    let mut escrow = Escrow::new();
    let c = funded_contest(creator, &mut escrow);
    let at_30_days = DEADLINE + 30 * 24 * 60 * 60;
    assert_eq!(at_30_days, DEADLINE + RECLAIM_GRACE_SECONDS);
    let payout = reclaim_funds(&c, &mut escrow, creator, at_30_days).unwrap();
    assert_eq!(payout, Payout { to: creator, amount: 10_000_000 });
    assert_eq!(escrow.balance, 0);
    assert_eq!(c.status, ContestStatus::Active);
}

#[test]
fn reclaim_returns_remaining_balance() {
    let creator = acc(1);
    let mut escrow = Escrow::new();
    let c = funded_contest(creator, &mut escrow);
    escrow.balance = 123;
    let payout = reclaim_funds(&c, &mut escrow, creator, DEADLINE + RECLAIM_GRACE_SECONDS).unwrap();
    assert_eq!(payout.amount, 123);
    assert_eq!(escrow.balance, 0);
}

#[test]
fn reclaim_needs_creator() {
    let creator = acc(1);
    let mut escrow = Escrow::new();
    let c = funded_contest(creator, &mut escrow);
    let r = reclaim_funds(&c, &mut escrow, acc(2), DEADLINE + RECLAIM_GRACE_SECONDS);
    assert_eq!(r.unwrap_err(), ErrorCode::UnauthorizedCreator);
    assert_eq!(escrow.balance, 10_000_000);
}

#[test]
fn reclaim_rejected_once_completed() {
    let creator = acc(1);
    let mut escrow = Escrow::new();
    let mut c = funded_contest(creator, &mut escrow);
    c.status = ContestStatus::Completed;
    let r = reclaim_funds(&c, &mut escrow, creator, DEADLINE + RECLAIM_GRACE_SECONDS);
    assert_eq!(r.unwrap_err(), ErrorCode::ContestAlreadyCompleted);
    assert_eq!(escrow.balance, 10_000_000);
}

#[test]
fn reclaim_allowed_before_funding() {
    let creator = acc(1);
    let c = create_contest(
        creator,
        1,
        Vec::new(),
        Vec::new(),
        10_000_000,
        DEADLINE,
        vec![acc(11)],
        1,
        100,
    )
    .unwrap();
    let mut escrow = Escrow::new();
    let payout = reclaim_funds(&c, &mut escrow, creator, DEADLINE + RECLAIM_GRACE_SECONDS).unwrap();
    assert_eq!(payout.amount, 0);
    assert_eq!(escrow.balance, 0);
}
