//! The milestone state machine on its own.

use runtime_modules::bounty::collaborators::{AuthorityCheck, MemberDirectory};
use runtime_modules::bounty::milestone::{has_elapsed, Action};
use runtime_modules::bounty::types::{Bounty, BountyActor, BountyMilestone, Caller};

fn bounty_at(
    milestone: BountyMilestone,
    funding_period: Option<u64>,
    total_funding: u64,
) -> Bounty {
    Bounty {
        id: 1,
        creator: BountyActor::Council,
        creator_account: None,
        cherry: 100,
        cherry_in_escrow: true,
        min_amount: 50,
        max_amount: 1000,
        total_funding,
        milestone,
        funding_period,
        work_period: 20,
        judging_period: 30,
        created_at: 100,
    }
}

#[test]
fn period_is_over_after_its_last_tick() {
    assert!(!has_elapsed(10, 5, 14));
    assert!(!has_elapsed(10, 5, 15));
    assert!(has_elapsed(10, 5, 16));
    assert!(!has_elapsed(0, 0, 0));
    assert!(has_elapsed(0, 0, 1));
    // No sum runs over.
    assert!(!has_elapsed(u64::MAX, u64::MAX, u64::MAX));
    assert!(!has_elapsed(1, u64::MAX, u64::MAX));
    assert!(!has_elapsed(u64::MAX, 0, u64::MAX));
    assert!(has_elapsed(u64::MAX - 1, 0, u64::MAX));
}

#[test]
fn created_bounty_enters_its_first_stage() {
    let with_funding = bounty_at(BountyMilestone::Created, Some(10), 0);
    assert_eq!(
        with_funding.effective_milestone(100),
        BountyMilestone::Funding { started_at: 100 }
    );
    let without_funding = bounty_at(BountyMilestone::Created, None, 0);
    assert_eq!(
        without_funding.effective_milestone(100),
        BountyMilestone::WorkSubmission { started_at: 100 }
    );
}

#[test]
fn funding_ends_with_its_period_if_the_minimum_was_raised() {
    let funding = BountyMilestone::Funding { started_at: 100 };
    let raised = bounty_at(funding, Some(10), 50);
    assert_eq!(raised.effective_milestone(110), funding);
    assert!(raised.accepts_funding(110));
    assert_eq!(
        raised.effective_milestone(111),
        BountyMilestone::WorkSubmission { started_at: 111 }
    );
    assert!(!raised.accepts_funding(111));
    assert!(raised.accepts_work(111));
    assert!(!raised.funding_failed(111));
    assert!(!raised.refunds_open(111));

    let short = bounty_at(funding, Some(10), 49);
    assert_eq!(short.effective_milestone(110), funding);
    assert!(short.accepts_funding(110));
    assert!(!short.funding_failed(110));
    assert_eq!(short.effective_milestone(111), funding);
    assert!(!short.accepts_funding(111));
    assert!(short.funding_failed(111));
    assert!(short.refunds_open(111));
    assert!(!short.accepts_work(111));
    assert_eq!(short.effective_milestone(u64::MAX), funding);

    // Without a period the funding stage does not end by time.
    let open_ended = bounty_at(funding, None, 0);
    assert_eq!(open_ended.effective_milestone(u64::MAX), funding);
    assert!(open_ended.accepts_funding(u64::MAX));
}

#[test]
fn stages_follow_each_other_without_being_touched() {
    let start = bounty_at(BountyMilestone::Funding { started_at: 100 }, Some(10), 50);
    // Funding through 110, work through 131, judging through 162.
    assert_eq!(start.effective_milestone(131), BountyMilestone::WorkSubmission { started_at: 111 });
    assert_eq!(start.effective_milestone(132), BountyMilestone::Judgment { started_at: 132 });
    assert_eq!(start.effective_milestone(162), BountyMilestone::Judgment { started_at: 132 });
    assert_eq!(start.effective_milestone(163), BountyMilestone::Canceled);
    assert!(start.refunds_open(163));
    assert!(start.cherry_claimable(163));
    assert!(!start.cherry_claimable(162));

    let done = bounty_at(BountyMilestone::Successful, Some(10), 0);
    assert_eq!(done.effective_milestone(u64::MAX), BountyMilestone::Successful);
    let canceled = bounty_at(BountyMilestone::Canceled, Some(10), 0);
    assert_eq!(canceled.effective_milestone(u64::MAX), BountyMilestone::Canceled);
}

#[test]
fn cherry_is_claimable_at_the_end_only() {
    assert!(bounty_at(BountyMilestone::Canceled, None, 70).cherry_claimable(0));
    assert!(bounty_at(BountyMilestone::Successful, None, 0).cherry_claimable(0));
    assert!(!bounty_at(BountyMilestone::Successful, None, 1).cherry_claimable(0));
    assert!(!bounty_at(BountyMilestone::Funding { started_at: 0 }, Some(5), 0).cherry_claimable(3));
    assert!(!bounty_at(BountyMilestone::Funding { started_at: 0 }, Some(5), 0).cherry_claimable(6));
    assert!(
        !bounty_at(BountyMilestone::WorkSubmission { started_at: 0 }, None, 0).cherry_claimable(3)
    );
    assert!(!bounty_at(BountyMilestone::Judgment { started_at: 0 }, None, 0).cherry_claimable(3));
}

#[test]
fn actions_are_taken_where_the_milestone_permits() {
    let funding = BountyMilestone::Funding { started_at: 100 };
    let work = BountyMilestone::WorkSubmission { started_at: 100 };
    let judgment = BountyMilestone::Judgment { started_at: 100 };
    let win = Action::Resolve { successful: true };
    let lose = Action::Resolve { successful: false };

    let unfunded = bounty_at(funding, Some(10), 0);
    assert_eq!(unfunded.transition(105, Action::Elapse), Some(funding));
    assert_eq!(unfunded.transition(105, Action::Cancel), Some(BountyMilestone::Canceled));
    assert_eq!(unfunded.transition(105, Action::Veto), Some(BountyMilestone::Canceled));
    assert_eq!(
        unfunded.transition(105, Action::ReachCap),
        Some(BountyMilestone::WorkSubmission { started_at: 105 })
    );
    assert_eq!(unfunded.transition(105, win), None);
    // After a failed funding the creator still cancels, the cap comes too late.
    assert_eq!(unfunded.transition(111, Action::Cancel), Some(BountyMilestone::Canceled));
    assert_eq!(unfunded.transition(111, Action::ReachCap), None);

    let funded = bounty_at(funding, Some(10), 60);
    assert_eq!(funded.transition(105, Action::Cancel), None);
    assert_eq!(funded.transition(105, Action::Veto), Some(BountyMilestone::Canceled));
    assert_eq!(funded.transition(111, Action::ReachCap), None);

    let working = bounty_at(work, None, 60);
    assert_eq!(working.transition(105, Action::Cancel), None);
    assert_eq!(working.transition(105, Action::Veto), Some(BountyMilestone::Canceled));
    assert_eq!(working.transition(105, Action::ReachCap), None);
    assert_eq!(working.transition(105, lose), None);
    assert_eq!(working.transition(121, win), Some(BountyMilestone::Successful));

    let judged = bounty_at(judgment, None, 60);
    assert_eq!(judged.transition(105, Action::Veto), None);
    assert_eq!(judged.transition(105, Action::Cancel), None);
    assert_eq!(judged.transition(105, win), Some(BountyMilestone::Successful));
    assert_eq!(judged.transition(105, lose), Some(BountyMilestone::Canceled));
    assert_eq!(judged.transition(130, win), Some(BountyMilestone::Successful));
    assert_eq!(judged.transition(131, win), None);
    assert_eq!(judged.transition(131, Action::Elapse), Some(BountyMilestone::Canceled));

    // Before any stage the creator cancels and the council vetoes.
    let posted = bounty_at(BountyMilestone::Created, None, 0);
    assert_eq!(posted.transition(105, Action::Cancel), Some(BountyMilestone::Canceled));
    assert_eq!(posted.transition(105, Action::Veto), Some(BountyMilestone::Canceled));
    assert_eq!(
        posted.transition(105, Action::Elapse),
        Some(BountyMilestone::WorkSubmission { started_at: 100 })
    );

    for terminal in [BountyMilestone::Successful, BountyMilestone::Canceled] {
        let ended = bounty_at(terminal, Some(10), 0);
        assert_eq!(ended.transition(105, Action::Elapse), Some(terminal));
        for action in [Action::ReachCap, Action::Cancel, Action::Veto, win, lose] {
            assert_eq!(ended.transition(105, action), None);
        }
    }
}

#[test]
fn directory_resolves_members_and_the_privileged_caller() {
    let mut directory = MemberDirectory::new();
    assert!(directory.is_privileged(&Caller::Root));
    assert!(!directory.is_privileged(&Caller::Signed(1)));
    assert!(!directory.controls(&Caller::Signed(1), 7));
    directory.register(7, 1);
    assert!(directory.controls(&Caller::Signed(1), 7));
    assert!(!directory.controls(&Caller::Signed(2), 7));
    assert!(!directory.controls(&Caller::Signed(1), 8));
    assert!(!directory.controls(&Caller::Root, 7));
    directory.register(7, 2);
    assert!(!directory.controls(&Caller::Signed(1), 7));
    assert!(directory.controls(&Caller::Signed(2), 7));
    assert_eq!(BountyActor::default(), BountyActor::Council);
}
