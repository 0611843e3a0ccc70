//! The funding ledger and the work entries of one bounty.

use runtime_modules::bounty::funding::FundingLedger;
use runtime_modules::bounty::types::{BountyActor, Error};
use runtime_modules::bounty::work::WorkEntryRegistry;

#[test]
fn ledger_adds_up_contributions_by_funder() {
    let mut ledger = FundingLedger::new();
    assert!(ledger.is_empty());
    assert_eq!(ledger.total(), 0);
    assert_eq!(ledger.contribution_of(BountyActor::Council), None);

    assert_eq!(ledger.contribute(BountyActor::Member(1), 30, 100), Ok(false));
    assert_eq!(ledger.contribute(BountyActor::Council, 20, 100), Ok(false));
    assert_eq!(ledger.contribute(BountyActor::Member(1), 5, 100), Ok(false));
    assert_eq!(ledger.total(), 55);
    assert_eq!(ledger.contribution_of(BountyActor::Member(1)), Some(35));
    assert_eq!(ledger.contribution_of(BountyActor::Council), Some(20));
    assert_eq!(ledger.contribution_of(BountyActor::Member(2)), None);
    assert!(!ledger.is_empty());
}

#[test]
fn ledger_enforces_the_cap() {
    let mut ledger = FundingLedger::new();
    assert_eq!(ledger.check_contribution(0, 100), Some(Error::ZeroAmount));
    assert_eq!(ledger.check_contribution(100, 100), None);
    assert_eq!(ledger.check_contribution(101, 100), Some(Error::FundingExceedsCap));
    assert_eq!(ledger.check_contribution(1, 0), Some(Error::FundingExceedsCap));
    assert_eq!(ledger.check_contribution(0, 0), Some(Error::ZeroAmount));

    assert_eq!(ledger.contribute(BountyActor::Member(1), 0, 100), Err(Error::ZeroAmount));
    assert_eq!(ledger.contribute(BountyActor::Member(1), 101, 100), Err(Error::FundingExceedsCap));
    assert_eq!(ledger.total(), 0);
    assert_eq!(ledger.contribute(BountyActor::Member(1), 60, 100), Ok(false));
    assert_eq!(ledger.contribute(BountyActor::Member(2), 41, 100), Err(Error::FundingExceedsCap));
    assert_eq!(
        ledger.contribute(BountyActor::Member(2), u64::MAX, 100),
        Err(Error::FundingExceedsCap)
    );
    assert_eq!(ledger.contribution_of(BountyActor::Member(2)), None);
    assert_eq!(ledger.total(), 60);
    assert_eq!(ledger.contribute(BountyActor::Member(2), 40, 100), Ok(true));
    assert_eq!(ledger.total(), 100);
    assert_eq!(ledger.contribute(BountyActor::Member(2), 1, 100), Err(Error::FundingExceedsCap));
    // A ledger above a lower cap takes nothing.
    assert_eq!(ledger.check_contribution(1, 50), Some(Error::FundingExceedsCap));
    assert_eq!(ledger.contribute(BountyActor::Member(3), 1, u64::MAX), Ok(false));
}

#[test]
fn ledger_refunds_a_funder_in_full() {
    let mut ledger = FundingLedger::new();
    ledger.contribute(BountyActor::Member(1), 30, 100).unwrap();
    ledger.contribute(BountyActor::Member(2), 20, 100).unwrap();
    ledger.contribute(BountyActor::Member(3), 10, 100).unwrap();

    assert_eq!(ledger.refund(BountyActor::Member(4)), None);
    assert_eq!(ledger.total(), 60);
    assert_eq!(ledger.refund(BountyActor::Member(2)), Some(20));
    assert_eq!(ledger.refund(BountyActor::Member(2)), None);
    assert_eq!(ledger.total(), 40);
    assert_eq!(ledger.contribution_of(BountyActor::Member(1)), Some(30));
    assert_eq!(ledger.contribution_of(BountyActor::Member(3)), Some(10));
    assert_eq!(ledger.refund(BountyActor::Member(1)), Some(30));
    assert_eq!(ledger.refund(BountyActor::Member(3)), Some(10));
    assert!(ledger.is_empty());
    assert_eq!(ledger.total(), 0);
}

#[test]
fn work_entries_are_announced_submitted_and_withdrawn() {
    let mut registry = WorkEntryRegistry::new();
    assert!(!registry.contains(1));
    assert_eq!(registry.owner_of(1), None);
    assert_eq!(registry.get(1), None);

    registry.announce(1, 9, 70, Some(500));
    registry.announce(2, 9, 71, None);
    assert!(registry.contains(1));
    assert!(registry.contains(2));
    assert_eq!(registry.owner_of(1), Some(70));
    assert_eq!(registry.owner_of(2), Some(71));
    let first = registry.get(1).unwrap();
    assert_eq!((first.id, first.bounty_id, first.member_id), (1, 9, 70));
    assert_eq!(first.staking_account_id, Some(500));
    assert_eq!(first.last_submitted_work, None);

    assert!(!registry.record(3, vec![1]));
    assert!(registry.record(2, vec![1, 2]));
    assert_eq!(registry.get(2).unwrap().last_submitted_work, Some(vec![1, 2]));
    assert_eq!(registry.get(1).unwrap().last_submitted_work, None);
    assert!(registry.record(2, vec![3]));
    assert_eq!(registry.get(2).unwrap().last_submitted_work, Some(vec![3]));
    assert_eq!(registry.get(2).unwrap().member_id, 71);

    assert!(!registry.withdraw(3));
    assert!(registry.withdraw(1));
    assert!(!registry.withdraw(1));
    assert!(!registry.contains(1));
    assert_eq!(registry.get(2).unwrap().last_submitted_work, Some(vec![3]));
    assert_eq!(registry.get(2), registry.get(2));
    assert_eq!(registry.get(2).unwrap().id, 2);
}
