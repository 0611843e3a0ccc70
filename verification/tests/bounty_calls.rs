//! Each call of the registry on its own: a fresh registry, a funded member
//! or the council, one call, and what the call must leave behind.

use parity_scale_codec::Encode;
use runtime_modules::bounty::collaborators::{
    Accounts, BudgetPool, CouncilBudget, MemberDirectory,
};
use runtime_modules::bounty::lifecycle::{run_to_block, BountyLifecycle};
use runtime_modules::bounty::types::{
    Bounty, BountyActor, BountyCreationParameters, BountyMilestone, Caller, Error, Event,
};
use runtime_modules::handles::handle_from_id;

type Registry = BountyLifecycle<MemberDirectory, Accounts, CouncilBudget>;

const MAX_BYTES: u32 = 50000;
const SEED: u32 = 0;

/// The balance that a funded account starts with.
fn initial_balance() -> u64 {
    1000000
}

fn new_registry() -> Registry {
    BountyLifecycle::new(MemberDirectory::new(), Accounts::new(), CouncilBudget::new(0))
}

fn assert_last_event(registry: &Registry, event: Event) {
    assert_eq!(registry.last_event(), Some(event));
}

/// An account id derived from a name, an index and a seed.
fn account(name: &'static str, index: u32, seed: u32) -> u64 {
    let entropy = (name, index, seed).using_encoded(sp_crypto_hashing::blake2_256);
    let mut bytes = [0u8; 8];
    bytes.copy_from_slice(&entropy[..8]);
    u64::from_le_bytes(bytes)
}

/// Registers the member `id` under a funded account of its own.
fn member_funded_account(registry: &mut Registry, name: &'static str, id: u32) -> (u64, u64) {
    let account_id = account(name, id, SEED);
    let handle = handle_from_id(id);
    assert_eq!(handle.len(), 4);
    registry.ledger.set_balance(account_id, initial_balance());
    let member_id = u64::from(id);
    registry.authority.register(member_id, account_id);
    (account_id, member_id)
}

fn bounty(registry: &Registry, bounty_id: u64) -> Bounty {
    registry.bounties(bounty_id).expect("the bounty is registered")
}

#[test]
fn create_bounty_by_council() {
    for i in [1, 2, 1000, MAX_BYTES] {
        let mut registry = new_registry();
        let metadata = vec![0u8].repeat(i as usize);
        let cherry: u64 = 100;

        registry.budget.set_budget(cherry);

        let params = BountyCreationParameters {
            work_period: 1,
            judging_period: 1,
            cherry,
            ..Default::default()
        };

        assert_eq!(registry.create_bounty(Caller::Root, params, metadata), Ok(1));

        let bounty_id: u64 = 1;

        assert!(registry.contains_bounty(bounty_id));
        assert_eq!(registry.bounty_count(), 1); // Bounty counter was updated.
        assert_last_event(&registry, Event::BountyCreated(bounty_id, params));
    }
}

#[test]
fn create_bounty_by_member() {
    for i in [1, 2, 1000, MAX_BYTES] {
        let mut registry = new_registry();
        let metadata = vec![0u8].repeat(i as usize);
        let cherry: u64 = 100;

        let (account_id, member_id) = member_funded_account(&mut registry, "member1", 0);

        registry.budget.set_budget(cherry);

        let params = BountyCreationParameters {
            work_period: 1,
            judging_period: 1,
            cherry,
            creator: BountyActor::Member(member_id),
            ..Default::default()
        };

        assert_eq!(registry.create_bounty(Caller::Signed(account_id), params, metadata), Ok(1));

        let bounty_id: u64 = 1;

        assert!(registry.contains_bounty(bounty_id));
        assert_eq!(registry.bounty_count(), 1); // Bounty counter was updated.
        assert_last_event(&registry, Event::BountyCreated(bounty_id, params));
        // The member paid the cherry, the council did not.
        assert_eq!(registry.ledger.free_balance(account_id), initial_balance() - cherry);
        assert_eq!(registry.budget.get_budget(), cherry);
    }
}

#[test]
fn cancel_bounty_by_council() {
    let mut registry = new_registry();
    let cherry: u64 = 100;
    let max_amount: u64 = 1000;

    registry.budget.set_budget(cherry);

    let creator = BountyActor::Council;
    // The creator cancels during funding, so the bounty gets a funding stage.
    let params = BountyCreationParameters {
        funding_period: Some(1),
        work_period: 1,
        judging_period: 1,
        cherry,
        creator,
        max_amount,
        ..Default::default()
    };

    registry.create_bounty(Caller::Root, params, Vec::new()).unwrap();

    let bounty_id: u64 = registry.bounty_count();

    assert!(registry.contains_bounty(bounty_id));

    assert_eq!(registry.cancel_bounty(Caller::Root, creator, bounty_id), Ok(()));

    let bounty = bounty(&registry, bounty_id);

    assert!(matches!(bounty.milestone, BountyMilestone::Canceled));
    assert_last_event(&registry, Event::BountyCanceled(bounty_id, creator));
}

#[test]
fn cancel_bounty_by_member() {
    let mut registry = new_registry();
    let cherry: u64 = 100;
    let max_amount: u64 = 1000;
    let (account_id, member_id) = member_funded_account(&mut registry, "member1", 0);

    registry.budget.set_budget(cherry);

    let creator = BountyActor::Member(member_id);

    // The creator cancels during funding, so the bounty gets a funding stage.
    let params = BountyCreationParameters {
        funding_period: Some(1),
        work_period: 1,
        judging_period: 1,
        cherry,
        creator,
        max_amount,
        ..Default::default()
    };

    registry.create_bounty(Caller::Signed(account_id), params, Vec::new()).unwrap();

    let bounty_id: u64 = registry.bounty_count();

    assert!(registry.contains_bounty(bounty_id));

    assert_eq!(registry.cancel_bounty(Caller::Signed(account_id), creator, bounty_id), Ok(()));

    let bounty = bounty(&registry, bounty_id);

    assert!(matches!(bounty.milestone, BountyMilestone::Canceled));
    assert_last_event(&registry, Event::BountyCanceled(bounty_id, creator));
}

#[test]
fn veto_bounty() {
    let mut registry = new_registry();
    let max_amount: u64 = 1000;
    let cherry: u64 = 100;

    registry.budget.set_budget(cherry);

    let params = BountyCreationParameters {
        work_period: 1,
        judging_period: 1,
        max_amount,
        cherry,
        ..Default::default()
    };

    registry.create_bounty(Caller::Root, params, Vec::new()).unwrap();

    let bounty_id: u64 = registry.bounty_count();

    assert!(registry.contains_bounty(bounty_id));

    assert_eq!(registry.veto_bounty(Caller::Root, bounty_id), Ok(()));

    let bounty = bounty(&registry, bounty_id);

    assert!(matches!(bounty.milestone, BountyMilestone::Canceled));
    assert_last_event(&registry, Event::BountyVetoed(bounty_id));
}

#[test]
fn fund_bounty_by_member() {
    let mut registry = new_registry();
    let max_amount: u64 = 100;
    let cherry: u64 = 100;

    registry.budget.set_budget(cherry);

    // Contributions are taken during funding, so the bounty gets a funding
    // stage.
    let params = BountyCreationParameters {
        funding_period: Some(1),
        work_period: 1,
        judging_period: 1,
        max_amount,
        cherry,
        ..Default::default()
    };
    // should reach default max bounty funding amount
    let amount: u64 = 100;

    let (account_id, member_id) = member_funded_account(&mut registry, "member1", 0);

    registry.create_bounty(Caller::Root, params, Vec::new()).unwrap();

    let bounty_id: u64 = registry.bounty_count();

    assert!(registry.contains_bounty(bounty_id));

    assert_eq!(
        registry.fund_bounty(
            Caller::Signed(account_id),
            BountyActor::Member(member_id),
            bounty_id,
            amount
        ),
        Ok(())
    );

    assert_eq!(registry.ledger.free_balance(account_id), initial_balance() - amount);
    assert_last_event(&registry, Event::BountyMaxFundingReached(bounty_id));
}

#[test]
fn fund_bounty_by_council() {
    let mut registry = new_registry();
    let max_amount: u64 = 100;
    let cherry: u64 = 100;

    registry.budget.set_budget(cherry + max_amount);

    // Contributions are taken during funding, so the bounty gets a funding
    // stage.
    let params = BountyCreationParameters {
        funding_period: Some(1),
        work_period: 1,
        judging_period: 1,
        max_amount,
        cherry,
        ..Default::default()
    };
    // should reach default max bounty funding amount
    let amount: u64 = 100;

    registry.create_bounty(Caller::Root, params, Vec::new()).unwrap();

    let bounty_id: u64 = registry.bounty_count();

    assert!(registry.contains_bounty(bounty_id));

    assert_eq!(
        registry.fund_bounty(Caller::Root, BountyActor::Council, bounty_id, amount),
        Ok(())
    );

    assert_eq!(registry.budget.get_budget(), 0);
    assert_last_event(&registry, Event::BountyMaxFundingReached(bounty_id));
}

#[test]
fn withdraw_funding_by_member() {
    let mut registry = new_registry();
    let funding_period = 1;
    let bounty_amount = 200;
    let cherry: u64 = 100;

    registry.budget.set_budget(cherry);

    let params = BountyCreationParameters {
        funding_period: Some(funding_period),
        work_period: 1,
        judging_period: 1,
        max_amount: bounty_amount,
        min_amount: bounty_amount,
        cherry,
        ..Default::default()
    };
    // should reach default max bounty funding amount
    let amount: u64 = 100;

    let (account_id, member_id) = member_funded_account(&mut registry, "member1", 0);

    registry.create_bounty(Caller::Root, params, Vec::new()).unwrap();

    let bounty_id: u64 = registry.bounty_count();

    assert!(registry.contains_bounty(bounty_id));

    let funder = BountyActor::Member(member_id);

    registry.fund_bounty(Caller::Signed(account_id), funder, bounty_id, amount).unwrap();

    run_to_block(&mut registry, funding_period + 1);

    assert_eq!(
        registry.withdraw_funding(Caller::Signed(account_id), funder, bounty_id),
        Ok(amount)
    );

    // The funder has the contribution back, and the creator the cherry.
    assert_eq!(registry.ledger.free_balance(account_id), initial_balance());
    assert_eq!(registry.budget.get_budget(), cherry);
    assert_last_event(&registry, Event::BountyRemoved(bounty_id));
}

#[test]
fn withdraw_funding_by_council() {
    let mut registry = new_registry();
    let funding_period = 1;
    let bounty_amount = 200;
    let cherry: u64 = 100;
    let funding_amount: u64 = 100;

    registry.budget.set_budget(cherry + funding_amount);

    let params = BountyCreationParameters {
        funding_period: Some(funding_period),
        work_period: 1,
        judging_period: 1,
        max_amount: bounty_amount,
        min_amount: bounty_amount,
        cherry,
        ..Default::default()
    };

    registry.create_bounty(Caller::Root, params, Vec::new()).unwrap();

    let bounty_id: u64 = registry.bounty_count();

    assert!(registry.contains_bounty(bounty_id));

    let funder = BountyActor::Council;

    registry.fund_bounty(Caller::Root, funder, bounty_id, funding_amount).unwrap();

    run_to_block(&mut registry, funding_period + 1);

    assert_eq!(registry.withdraw_funding(Caller::Root, funder, bounty_id), Ok(funding_amount));

    assert_eq!(registry.budget.get_budget(), cherry + funding_amount);
    assert_last_event(&registry, Event::BountyRemoved(bounty_id));
}

#[test]
fn withdraw_creator_cherry_by_council() {
    let mut registry = new_registry();
    let max_amount: u64 = 1000;
    let cherry: u64 = 100;

    registry.budget.set_budget(cherry);

    let creator = BountyActor::Council;
    // The creator cancels during funding, so the bounty gets a funding stage.
    let params = BountyCreationParameters {
        funding_period: Some(1),
        work_period: 1,
        judging_period: 1,
        cherry,
        max_amount,
        creator,
        ..Default::default()
    };

    registry.create_bounty(Caller::Root, params, Vec::new()).unwrap();

    let bounty_id: u64 = registry.bounty_count();

    assert!(registry.contains_bounty(bounty_id));

    registry.cancel_bounty(Caller::Root, creator, bounty_id).unwrap();

    assert_eq!(registry.withdraw_creator_cherry(Caller::Root, creator, bounty_id), Ok(cherry));

    assert!(!registry.contains_bounty(bounty_id));
    assert_last_event(&registry, Event::BountyRemoved(bounty_id));
}

#[test]
fn withdraw_creator_cherry_by_member() {
    let mut registry = new_registry();
    let max_amount: u64 = 1000;
    let cherry: u64 = 100;
    let (account_id, member_id) = member_funded_account(&mut registry, "member1", 0);

    let creator = BountyActor::Member(member_id);

    // The creator cancels during funding, so the bounty gets a funding stage.
    let params = BountyCreationParameters {
        funding_period: Some(1),
        work_period: 1,
        judging_period: 1,
        cherry,
        creator,
        max_amount,
        ..Default::default()
    };

    registry.create_bounty(Caller::Signed(account_id), params, Vec::new()).unwrap();

    let bounty_id: u64 = registry.bounty_count();

    assert!(registry.contains_bounty(bounty_id));

    registry.cancel_bounty(Caller::Signed(account_id), creator, bounty_id).unwrap();

    assert_eq!(
        registry.withdraw_creator_cherry(Caller::Signed(account_id), creator, bounty_id),
        Ok(cherry)
    );

    assert!(!registry.contains_bounty(bounty_id));
    assert_last_event(&registry, Event::BountyRemoved(bounty_id));
}

/// A bounty of a member without a funding stage, which is in work
/// submission from the start and takes no contribution.
fn bounty_in_work_submission(registry: &mut Registry) -> u64 {
    let cherry: u64 = 100;
    let funding_amount: u64 = 100;
    let (account_id, member_id) = member_funded_account(registry, "member1", 0);

    let creator = BountyActor::Member(member_id);

    let params = BountyCreationParameters {
        work_period: 1,
        judging_period: 1,
        creator,
        cherry,
        ..Default::default()
    };

    registry.create_bounty(Caller::Signed(account_id), params, Vec::new()).unwrap();

    let bounty_id: u64 = registry.bounty_count();

    assert!(registry.contains_bounty(bounty_id));

    assert_eq!(
        registry.fund_bounty(Caller::Signed(account_id), creator, bounty_id, funding_amount),
        Err(Error::BountyNotInFundingMilestone)
    );

    bounty_id
}

#[test]
fn announce_work_entry() {
    let mut registry = new_registry();
    let bounty_id = bounty_in_work_submission(&mut registry);

    let (account_id, member_id) = member_funded_account(&mut registry, "member2", 1);

    assert_eq!(
        registry.announce_work_entry(
            Caller::Signed(account_id),
            member_id,
            bounty_id,
            Some(account_id)
        ),
        Ok(1)
    );

    let entry_id: u64 = registry.work_entry_count();

    assert!(registry.contains_work_entry(bounty_id, entry_id));
    assert_last_event(
        &registry,
        Event::WorkEntryAnnounced(bounty_id, entry_id, member_id, Some(account_id)),
    );
}

#[test]
fn withdraw_work_entry() {
    let mut registry = new_registry();
    let bounty_id = bounty_in_work_submission(&mut registry);

    let (account_id, member_id) = member_funded_account(&mut registry, "member2", 1);

    registry
        .announce_work_entry(Caller::Signed(account_id), member_id, bounty_id, Some(account_id))
        .unwrap();

    let entry_id: u64 = registry.work_entry_count();

    assert_eq!(
        registry.withdraw_work_entry(Caller::Signed(account_id), member_id, bounty_id, entry_id),
        Ok(())
    );

    assert!(!registry.contains_work_entry(bounty_id, entry_id));
    assert_last_event(&registry, Event::WorkEntryWithdrawn(bounty_id, entry_id, member_id));
}

#[test]
fn submit_work() {
    for i in [0, 1, 32, 1000, MAX_BYTES] {
        let mut registry = new_registry();
        let work_data = vec![0u8].repeat(i as usize);
        let bounty_id = bounty_in_work_submission(&mut registry);

        let (account_id, member_id) = member_funded_account(&mut registry, "member2", 1);

        registry
            .announce_work_entry(Caller::Signed(account_id), member_id, bounty_id, Some(account_id))
            .unwrap();

        let entry_id: u64 = registry.work_entry_count();

        assert_eq!(
            registry.submit_work(
                Caller::Signed(account_id),
                member_id,
                bounty_id,
                entry_id,
                work_data.clone()
            ),
            Ok(())
        );

        let entry = registry.work_entries(bounty_id, entry_id).expect("the entry is registered");
        let hashed = sp_crypto_hashing::blake2_256(&work_data);
        let work_data_hash = hashed.as_ref().to_vec();

        assert_eq!(entry.last_submitted_work, Some(work_data_hash));
        assert_last_event(
            &registry,
            Event::WorkSubmitted(bounty_id, entry_id, member_id, work_data),
        );
    }
}
