//! What holds of the bounty registry whatever is called on it.

use super::funding::{contribution, lemma_with_contribution, lemma_without_funder, raised};
use super::model::{Call, State};
use super::types::{
    Balance, BountyActor, BountyCreationParameters, BountyId, Caller, Error, ErrorKind, EventView,
    MemberId, WorkEntryId,
};
use super::work::{
    announced, has_entry, law_announced_entry_is_found, law_submission_replaces_fingerprint,
    law_withdrawn_entry_is_gone,
};
use vstd::prelude::*;

verus! {

/// A call that is refused changes nothing: no ledger is touched and no
/// event is reported.
pub proof fn law_refused_call_changes_nothing(state: State, call: Call)
    requires
        state.refusal(call) is Some,
    ensures
        state.after(call) == state,
{
}

/// Whatever is called on a well-formed registry, it stays well formed.
pub proof fn law_calls_preserve_well_formedness(state: State, call: Call)
    requires
        state.wf(),
        state.has_room_for(call),
    ensures
        state.after(call).wf(),
{
    if state.refusal(call) is None {
        match call {
            Call::FundBounty { funder, bounty_id, amount, .. } => {
                lemma_with_contribution(state.bounties[bounty_id].contributions, funder, amount);
            },
            Call::WithdrawFunding { funder, bounty_id, .. } => {
                lemma_without_funder(state.bounties[bounty_id].contributions, funder);
            },
            Call::AnnounceWorkEntry { member_id, bounty_id, staking_account_id, .. } => {
                // The next id is above every id in use.
                law_announced_entry_is_found(
                    state.bounties[bounty_id].entries,
                    announced(state.next_work_entry_id(), bounty_id, member_id, staking_account_id),
                );
            },
            Call::WithdrawWorkEntry { bounty_id, entry_id, .. } => {
                law_withdrawn_entry_is_gone(state.bounties[bounty_id].entries, entry_id);
            },
            Call::SubmitWork { bounty_id, entry_id, work_data, .. } => {
                law_submission_replaces_fingerprint(
                    state.bounties[bounty_id].entries,
                    entry_id,
                    super::fingerprint::blake2_256(work_data),
                );
            },
            _ => {},
        }
    }
}

/// Funding cap: after any call, a registered bounty holds what its funding
/// ledger sums up to, and that is at most its cap.
pub proof fn law_funding_never_exceeds_cap(state: State, call: Call, bounty_id: BountyId)
    requires
        state.wf(),
        state.has_room_for(call),
        state.after(call).bounties.contains_key(bounty_id),
    ensures
        state.after(call).bounties[bounty_id].bounty.total_funding == raised(
            state.after(call).bounties[bounty_id].contributions,
        ),
        state.after(call).bounties[bounty_id].bounty.total_funding <= state.after(
            call,
        ).bounties[bounty_id].bounty.max_amount,
{
    law_calls_preserve_well_formedness(state, call);
}

/// Funding cap: a contribution that would push the raised amount above the
/// cap is refused and leaves everything as it was. It is refused as
/// exceeding the cap where the bounty takes contributions and the caller
/// holds the funder's authority.
pub proof fn law_contribution_above_cap_is_refused(
    state: State,
    caller: Caller,
    funder: BountyActor,
    bounty_id: BountyId,
    amount: Balance,
)
    requires
        state.wf(),
        state.bounties.contains_key(bounty_id),
        state.bounties[bounty_id].bounty.total_funding + amount
            > state.bounties[bounty_id].bounty.max_amount,
    ensures
        state.fund_bounty_refusal(caller, funder, bounty_id, amount) is Some,
        state.after_fund_bounty(caller, funder, bounty_id, amount) == state,
        state.bounties[bounty_id].bounty.spec_accepts_funding(state.now)
            && state.authority.authorizes(caller, funder) ==> state.fund_bounty_refusal(
            caller,
            funder,
            bounty_id,
            amount,
        ) == Some(Error::FundingExceedsCap),
{
}

/// Cherry conservation: a bounty is created with exactly the cherry its
/// creator paid, and holds it in escrow.
pub proof fn law_cherry_is_reserved_at_creation(
    state: State,
    caller: Caller,
    params: BountyCreationParameters,
)
    requires
        state.create_bounty_refusal(caller, params) is None,
    ensures
        ({
            let after = state.after_create_bounty(caller, params);
            let paid = state.after_payment(caller, params.creator, params.cherry);
            let created = after.bounties[state.next_bounty_id()];
            &&& after.bounties.contains_key(state.next_bounty_id())
            &&& created.bounty.cherry == params.cherry
            &&& created.bounty.cherry_in_escrow
            &&& created.bounty.creator == params.creator
            &&& created.bounty.creator_account == State::paying_account(caller, params.creator)
            &&& after.budget == paid.budget
            &&& after.balances == paid.balances
        }),
{
}

/// Cherry conservation: an accepted withdrawal returns exactly the cherry
/// to where the creator paid it from, and whoever asks for it again is
/// refused.
pub proof fn law_cherry_is_released_once(
    state: State,
    caller: Caller,
    creator: BountyActor,
    bounty_id: BountyId,
    next_caller: Caller,
    next_creator: BountyActor,
)
    requires
        state.wf(),
        state.withdraw_creator_cherry_refusal(caller, creator, bounty_id) is None,
    ensures
        ({
            let bounty = state.bounties[bounty_id].bounty;
            let after = state.after_withdraw_creator_cherry(caller, creator, bounty_id);
            let repaid = state.after_cherry_release(bounty.creator_account, bounty.cherry);
            &&& state.withdraw_creator_cherry_result(caller, creator, bounty_id) == Ok::<
                Balance,
                Error,
            >(bounty.cherry)
            &&& after.budget == repaid.budget
            &&& after.balances == repaid.balances
            &&& after.withdraw_creator_cherry_refusal(next_caller, next_creator, bounty_id)
                is Some
        }),
{
}

/// Cherry conservation: where the funding failed, the refund that empties
/// the funding ledger returns the funder's contribution to the funder and
/// exactly the cherry to where the creator paid it from, and removes the
/// bounty.
pub proof fn law_cherry_goes_with_the_last_refund(
    state: State,
    caller: Caller,
    funder: BountyActor,
    bounty_id: BountyId,
)
    requires
        state.wf(),
        state.withdraw_funding_refusal(caller, funder, bounty_id) is None,
        state.refund_takes_cherry_along(funder, bounty_id),
    ensures
        ({
            let bounty = state.bounties[bounty_id].bounty;
            let amount = contribution(state.bounties[bounty_id].contributions, funder).unwrap();
            let after = state.after_withdraw_funding(caller, funder, bounty_id);
            let repaid = state.after_refund(caller, funder, amount).after_cherry_release(
                bounty.creator_account,
                bounty.cherry,
            );
            &&& after.budget == repaid.budget
            &&& after.balances == repaid.balances
            &&& !after.bounties.contains_key(bounty_id)
            &&& after.events == state.events.push(EventView::BountyRemoved(bounty_id))
        }),
{
}

/// Cherry conservation: the cherry of a registered bounty never changes,
/// and once it has left escrow no call brings it back.
pub proof fn law_released_cherry_stays_released(state: State, call: Call, bounty_id: BountyId)
    requires
        state.wf(),
        state.has_room_for(call),
        state.bounties.contains_key(bounty_id),
        state.after(call).bounties.contains_key(bounty_id),
    ensures
        state.after(call).bounties[bounty_id].bounty.cherry
            == state.bounties[bounty_id].bounty.cherry,
        state.after(call).bounties[bounty_id].bounty.creator_account
            == state.bounties[bounty_id].bounty.creator_account,
        !state.bounties[bounty_id].bounty.cherry_in_escrow ==> !state.after(
            call,
        ).bounties[bounty_id].bounty.cherry_in_escrow,
{
    if state.refusal(call) is None {
        match call {
            Call::WithdrawFunding { funder, bounty_id: target, .. } => {
                assert(state.refunded_bounty(funder, target).bounty.id == target);
            },
            Call::WithdrawCreatorCherry { bounty_id: target, .. } => {
                assert(state.bounty_without_cherry(target).bounty.id == target);
            },
            _ => {},
        }
    }
}

/// Cherry conservation: the cherry leaves escrow, and a bounty that holds
/// its cherry leaves the registry, in two ways and no other: through an
/// accepted withdrawal of the cherry, or with the refund that empties the
/// funding ledger after the funding failed.
pub proof fn law_cherry_leaves_in_two_ways(state: State, call: Call, bounty_id: BountyId)
    requires
        state.wf(),
        state.has_room_for(call),
        state.bounties.contains_key(bounty_id),
        state.bounties[bounty_id].bounty.cherry_in_escrow,
        !state.after(call).bounties.contains_key(bounty_id) || !state.after(
            call,
        ).bounties[bounty_id].bounty.cherry_in_escrow,
    ensures
        state.refusal(call) is None,
        match call {
            Call::WithdrawCreatorCherry { bounty_id: target, .. } => target == bounty_id,
            Call::WithdrawFunding { funder, bounty_id: target, .. } => target == bounty_id
                && state.refund_takes_cherry_along(funder, bounty_id),
            _ => false,
        },
{
}

/// Conservation: what a bounty holds in escrow changes by what a call pays
/// in and pays out, and by nothing else. No call creates value in escrow
/// or lets it vanish, and no call touches what another bounty holds.
pub proof fn law_escrow_is_conserved(state: State, call: Call, bounty_id: BountyId)
    requires
        state.wf(),
        state.has_room_for(call),
    ensures
        state.after(call).held(bounty_id) == state.held(bounty_id) + state.paid_in(call, bounty_id)
            - state.paid_out(call, bounty_id),
        call.bounty_id() is Some && call.bounty_id() != Some(bounty_id) ==> state.after(call).held(
            bounty_id,
        ) == state.held(bounty_id),
{
    if state.refusal(call) is None {
        match call {
            Call::FundBounty { funder, bounty_id: target, amount, .. } => {
                lemma_with_contribution(state.bounties[target].contributions, funder, amount);
            },
            Call::WithdrawFunding { funder, bounty_id: target, .. } => {
                lemma_without_funder(state.bounties[target].contributions, funder);
                assert(state.refunded_bounty(funder, target).bounty.id == target);
            },
            Call::WithdrawCreatorCherry { bounty_id: target, .. } => {
                assert(state.bounty_without_cherry(target).bounty.id == target);
            },
            _ => {},
        }
    }
}

/// Conservation: no call changes who may act, and only a call that pays
/// into escrow or out of it changes a balance or the council's budget.
pub proof fn law_balances_change_with_payments_alone(state: State, call: Call)
    ensures
        state.after(call).authority == state.authority,
        !(call is CreateBounty || call is FundBounty || call is WithdrawFunding
            || call is WithdrawCreatorCherry) ==> state.after(call).budget == state.budget
            && state.after(call).balances == state.balances,
{
}

/// Monotonic ids: no call turns a counter back.
pub proof fn law_counters_never_decrease(state: State, call: Call)
    requires
        state.has_room_for(call),
    ensures
        state.after(call).bounty_count >= state.bounty_count,
        state.after(call).work_entry_count >= state.work_entry_count,
{
}

/// Monotonic ids: every id in use is at most its counter, so an id above
/// the counter was never handed out.
pub proof fn law_ids_in_use_are_below_the_counters(
    state: State,
    bounty_id: BountyId,
    entry_id: WorkEntryId,
)
    requires
        state.wf(),
        state.bounties.contains_key(bounty_id),
    ensures
        1 <= bounty_id <= state.bounty_count,
        has_entry(state.bounties[bounty_id].entries, entry_id) ==> 1 <= entry_id
            <= state.work_entry_count,
{
}

/// Monotonic ids: a bounty that a call adds carries the id next after the
/// counter, which the counter then takes.
pub proof fn law_new_bounty_takes_the_next_id(state: State, call: Call, bounty_id: BountyId)
    requires
        state.wf(),
        state.has_room_for(call),
        !state.bounties.contains_key(bounty_id),
        state.after(call).bounties.contains_key(bounty_id),
    ensures
        bounty_id == state.bounty_count + 1,
        state.after(call).bounty_count == bounty_id,
        call is CreateBounty,
{
}

/// Monotonic ids: a work entry that a call adds carries the id next after
/// the counter, which the counter then takes.
pub proof fn law_new_work_entry_takes_the_next_id(
    state: State,
    call: Call,
    bounty_id: BountyId,
    entry_id: WorkEntryId,
)
    requires
        state.wf(),
        state.has_room_for(call),
        state.bounties.contains_key(bounty_id),
        !has_entry(state.bounties[bounty_id].entries, entry_id),
        state.after(call).bounties.contains_key(bounty_id),
        has_entry(state.after(call).bounties[bounty_id].entries, entry_id),
    ensures
        entry_id == state.work_entry_count + 1,
        state.after(call).work_entry_count == entry_id,
        call is AnnounceWorkEntry,
{
    let before = state.bounties[bounty_id].entries;
    if state.refusal(call) is None && call.bounty_id() == Some(bounty_id) {
        match call {
            Call::AnnounceWorkEntry { member_id, staking_account_id, .. } => {
                law_announced_entry_is_found(
                    before,
                    announced(state.next_work_entry_id(), bounty_id, member_id, staking_account_id),
                );
            },
            Call::WithdrawWorkEntry { entry_id: withdrawn, .. } => {
                law_withdrawn_entry_is_gone(before, withdrawn);
            },
            Call::SubmitWork { entry_id: submitted, work_data, .. } => {
                law_submission_replaces_fingerprint(
                    before,
                    submitted,
                    super::fingerprint::blake2_256(work_data),
                );
            },
            _ => {},
        }
    }
}

/// Milestone gating: a bounty that is not in funding takes no
/// contribution, whoever offers it.
pub proof fn law_funding_is_gated(
    state: State,
    caller: Caller,
    funder: BountyActor,
    bounty_id: BountyId,
    amount: Balance,
)
    requires
        state.bounties.contains_key(bounty_id),
        !(state.bounties[bounty_id].bounty.spec_effective_milestone(state.now) is Funding),
    ensures
        state.fund_bounty_refusal(caller, funder, bounty_id, amount) == Some(
            Error::BountyNotInFundingMilestone,
        ),
        Error::BountyNotInFundingMilestone.spec_kind() == ErrorKind::InvalidMilestone,
        state.after_fund_bounty(caller, funder, bounty_id, amount) == state,
{
}

/// Milestone gating: a bounty that is not in work submission takes no
/// work entry and no submission, whoever offers it.
pub proof fn law_work_is_gated(
    state: State,
    caller: Caller,
    member_id: MemberId,
    bounty_id: BountyId,
    entry_id: WorkEntryId,
)
    requires
        state.bounties.contains_key(bounty_id),
        !(state.bounties[bounty_id].bounty.spec_effective_milestone(state.now) is WorkSubmission),
    ensures
        state.announce_work_entry_refusal(caller, member_id, bounty_id) == Some(
            Error::InvalidMilestone,
        ),
        state.submit_work_refusal(caller, member_id, bounty_id, entry_id) == Some(
            Error::InvalidMilestone,
        ),
        Error::InvalidMilestone.spec_kind() == ErrorKind::InvalidMilestone,
{
}

/// Removal: a call that refers to an id without a bounty is refused as not
/// found, whatever else it asks, and changes nothing.
pub proof fn law_missing_bounty_is_not_found(state: State, call: Call, bounty_id: BountyId)
    requires
        !state.bounties.contains_key(bounty_id),
        call.bounty_id() == Some(bounty_id),
    ensures
        state.refusal(call) == Some(Error::BountyNotFound),
        Error::BountyNotFound.spec_kind() == ErrorKind::NotFound,
        state.after(call) == state,
{
}

/// Removal: an id that was handed out and holds no bounty any more never
/// holds one again.
pub proof fn law_removed_bounty_is_never_resurrected(
    state: State,
    call: Call,
    bounty_id: BountyId,
)
    requires
        state.wf(),
        state.has_room_for(call),
        bounty_id <= state.bounty_count,
        !state.bounties.contains_key(bounty_id),
    ensures
        !state.after(call).bounties.contains_key(bounty_id),
{
}

/// Recording a submission keeps a well-formed registry well formed,
/// whatever the fingerprint.
pub proof fn law_recording_preserves_well_formedness(
    state: State,
    caller: Caller,
    member_id: MemberId,
    bounty_id: BountyId,
    entry_id: WorkEntryId,
    work_data: Seq<u8>,
    fingerprint: Seq<u8>,
)
    requires
        state.wf(),
    ensures
        state.after_record_work(
            caller,
            member_id,
            bounty_id,
            entry_id,
            work_data,
            fingerprint,
        ).wf(),
{
    if state.submit_work_refusal(caller, member_id, bounty_id, entry_id) is None {
        law_submission_replaces_fingerprint(
            state.bounties[bounty_id].entries,
            entry_id,
            fingerprint,
        );
    }
}

} // verus!
