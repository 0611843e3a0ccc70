//! The mathematical model of the bounty registry: its state as plain values
//! and, for each call, the error it is refused with and the state it leaves.
//! The executable registry is held to these functions.

use super::collaborators::{balance_in, credited, debited, saturating_sum, AuthorityView};
use super::fingerprint::blake2_256;
use super::funding::{contribution, raised, well_formed, with_contribution, without_funder};
use super::milestone::Action;
use super::types::{
    AccountId, Balance, BlockNumber, Bounty, BountyActor, BountyCreationParameters, BountyId,
    BountyMilestone, Caller, Error, EventView, FundingContribution, MemberId, WorkEntryId,
    WorkEntryView,
};
use super::work::{announced, distinct_ids, entry, with_submission, without_entry};
use vstd::prelude::*;

verus! {

/// One bounty with its sub-ledgers.
pub struct BountyState {
    /// The stored facts.
    pub bounty: Bounty,
    /// The funding ledger: one row for each funder with something
    /// outstanding.
    pub contributions: Seq<FundingContribution>,
    /// The work entries.
    pub entries: Seq<WorkEntryView>,
}

impl BountyState {
    /// The record agrees with its sub-ledgers and respects the cap.
    pub open spec fn wf(self) -> bool {
        &&& self.bounty.total_funding == raised(self.contributions)
        &&& self.bounty.total_funding <= self.bounty.max_amount
        &&& well_formed(self.contributions)
        &&& distinct_ids(self.entries)
        &&& forall|i: int|
            0 <= i < self.entries.len() ==> (#[trigger] self.entries[i]).bounty_id
                == self.bounty.id
        &&& self.bounty.min_amount <= self.bounty.max_amount
        &&& self.bounty.work_period > 0
        &&& self.bounty.judging_period > 0
        &&& (self.bounty.cherry_in_escrow || self.contributions.len() > 0)
        &&& (self.bounty.creator is Council <==> self.bounty.creator_account is None)
    }

    /// Nothing of value is left in the bounty.
    pub open spec fn drained(self) -> bool {
        !self.bounty.cherry_in_escrow && self.contributions.len() == 0
    }

    /// The bounty with `milestone`.
    pub open spec fn at(self, milestone: BountyMilestone) -> BountyState {
        BountyState { bounty: Bounty { milestone, ..self.bounty }, ..self }
    }
}

/// The whole registry with what its collaborators hold.
pub struct State {
    /// The current tick.
    pub now: BlockNumber,
    /// The id of the bounty created last; 0 before the first.
    pub bounty_count: BountyId,
    /// The id of the work entry announced last; 0 before the first.
    pub work_entry_count: WorkEntryId,
    /// The registered bounties by id.
    pub bounties: Map<BountyId, BountyState>,
    /// The events reported so far, oldest first.
    pub events: Seq<EventView>,
    /// The spendable balance of each account.
    pub balances: Map<AccountId, Balance>,
    /// The council's budget.
    pub budget: Balance,
    /// Who may act.
    pub authority: AuthorityView,
}

/// A call into the registry.
pub enum Call {
    CreateBounty { caller: Caller, params: BountyCreationParameters },
    CancelBounty { caller: Caller, creator: BountyActor, bounty_id: BountyId },
    VetoBounty { caller: Caller, bounty_id: BountyId },
    FundBounty { caller: Caller, funder: BountyActor, bounty_id: BountyId, amount: Balance },
    WithdrawFunding { caller: Caller, funder: BountyActor, bounty_id: BountyId },
    WithdrawCreatorCherry { caller: Caller, creator: BountyActor, bounty_id: BountyId },
    AnnounceWorkEntry {
        caller: Caller,
        member_id: MemberId,
        bounty_id: BountyId,
        staking_account_id: Option<AccountId>,
    },
    WithdrawWorkEntry {
        caller: Caller,
        member_id: MemberId,
        bounty_id: BountyId,
        entry_id: WorkEntryId,
    },
    SubmitWork {
        caller: Caller,
        member_id: MemberId,
        bounty_id: BountyId,
        entry_id: WorkEntryId,
        work_data: Seq<u8>,
    },
    RunToBlock { target: BlockNumber },
}

impl Call {
    /// The bounty the call refers to, if it refers to one.
    pub open spec fn bounty_id(self) -> Option<BountyId> {
        match self {
            Call::CreateBounty { .. } | Call::RunToBlock { .. } => None,
            Call::CancelBounty { bounty_id, .. }
            | Call::VetoBounty { bounty_id, .. }
            | Call::FundBounty { bounty_id, .. }
            | Call::WithdrawFunding { bounty_id, .. }
            | Call::WithdrawCreatorCherry { bounty_id, .. }
            | Call::AnnounceWorkEntry { bounty_id, .. }
            | Call::WithdrawWorkEntry { bounty_id, .. }
            | Call::SubmitWork { bounty_id, .. } => Some(bounty_id),
        }
    }
}

impl State {
    /// Every bounty is registered under its own id, ids handed out so far
    /// are at most the counters, and every bounty is well formed.
    pub open spec fn wf(self) -> bool {
        forall|id: BountyId| #[trigger]
            self.bounties.contains_key(id) ==> {
                &&& self.bounties[id].bounty.id == id
                &&& 1 <= id <= self.bounty_count
                &&& self.bounties[id].wf()
                &&& forall|i: int|
                    0 <= i < self.bounties[id].entries.len() ==> 1 <= (
                    #[trigger] self.bounties[id].entries[i]).id <= self.work_entry_count
            }
    }

    /// A registry without bounties at tick 0.
    pub open spec fn initial(
        balances: Map<AccountId, Balance>,
        budget: Balance,
        authority: AuthorityView,
    ) -> State {
        State {
            now: 0,
            bounty_count: 0,
            work_entry_count: 0,
            bounties: Map::empty(),
            events: Seq::empty(),
            balances,
            budget,
            authority,
        }
    }

    /// `actor`, acting through `caller`, can pay `amount`: the council out
    /// of its budget, a member out of the calling account.
    pub open spec fn can_afford(self, caller: Caller, actor: BountyActor, amount: Balance) -> bool {
        match (actor, caller) {
            (BountyActor::Council, _) => amount <= self.budget,
            (BountyActor::Member(_), Caller::Signed(account)) => amount <= balance_in(
                self.balances,
                account,
            ),
            (BountyActor::Member(_), Caller::Root) => false,
        }
    }

    /// The state after `amount` left `actor` for escrow.
    pub open spec fn after_payment(
        self,
        caller: Caller,
        actor: BountyActor,
        amount: Balance,
    ) -> State
        recommends
            self.can_afford(caller, actor, amount),
    {
        match (actor, caller) {
            (BountyActor::Council, _) => State {
                budget: (self.budget - amount) as Balance,
                ..self
            },
            (BountyActor::Member(_), Caller::Signed(account)) => State {
                balances: debited(self.balances, account, amount),
                ..self
            },
            (BountyActor::Member(_), Caller::Root) => self,
        }
    }

    /// The state after `amount` came back from escrow to `actor`: to the
    /// council's budget, or to the calling account of a member. A balance
    /// stops growing at the largest representable one.
    pub open spec fn after_refund(
        self,
        caller: Caller,
        actor: BountyActor,
        amount: Balance,
    ) -> State {
        match (actor, caller) {
            (BountyActor::Council, _) => State {
                budget: saturating_sum(self.budget, amount),
                ..self
            },
            (BountyActor::Member(_), Caller::Signed(account)) => State {
                balances: credited(self.balances, account, amount),
                ..self
            },
            (BountyActor::Member(_), Caller::Root) => self,
        }
    }

    /// The account that pays for `actor` when `caller` calls: the calling
    /// account for a member, none for the council.
    pub open spec fn paying_account(caller: Caller, actor: BountyActor) -> Option<AccountId> {
        match (actor, caller) {
            (BountyActor::Member(_), Caller::Signed(account)) => Some(account),
            _ => None,
        }
    }

    /// The state after `cherry` came back from escrow to where it was paid
    /// from: to `account`, or to the council's budget where there is none.
    pub open spec fn after_cherry_release(
        self,
        account: Option<AccountId>,
        cherry: Balance,
    ) -> State {
        match account {
            Some(account) => State { balances: credited(self.balances, account, cherry), ..self },
            None => State { budget: saturating_sum(self.budget, cherry), ..self },
        }
    }

    /// The state with `bounty` stored under its id, or without that id where
    /// nothing of value is left in it; the removal is reported.
    pub open spec fn settled(self, bounty: BountyState) -> State {
        if bounty.drained() {
            State {
                bounties: self.bounties.remove(bounty.bounty.id),
                events: self.events.push(EventView::BountyRemoved(bounty.bounty.id)),
                ..self
            }
        } else {
            State { bounties: self.bounties.insert(bounty.bounty.id, bounty), ..self }
        }
    }

    // Creation

    /// The milestone a bounty with `params` enters when posted at `now`.
    pub open spec fn first_milestone(
        params: BountyCreationParameters,
        now: BlockNumber,
    ) -> BountyMilestone {
        if params.funding_period is Some {
            BountyMilestone::Funding { started_at: now }
        } else {
            BountyMilestone::WorkSubmission { started_at: now }
        }
    }

    /// Why `create_bounty` is refused, if it is.
    pub open spec fn create_bounty_refusal(
        self,
        caller: Caller,
        params: BountyCreationParameters,
    ) -> Option<Error> {
        if !self.authority.authorizes(caller, params.creator) {
            Some(Error::Unauthorized)
        } else if !params.valid() {
            Some(Error::InvalidPeriodConfiguration)
        } else if !self.can_afford(caller, params.creator, params.cherry) {
            Some(Error::InsufficientBalanceForCherry)
        } else {
            None
        }
    }

    /// The id the next bounty gets.
    pub open spec fn next_bounty_id(self) -> BountyId {
        (self.bounty_count + 1) as BountyId
    }

    /// The bounty that `create_bounty` stores.
    pub open spec fn created_bounty(
        self,
        caller: Caller,
        params: BountyCreationParameters,
    ) -> BountyState {
        BountyState {
            bounty: Bounty {
                id: self.next_bounty_id(),
                creator: params.creator,
                creator_account: Self::paying_account(caller, params.creator),
                cherry: params.cherry,
                cherry_in_escrow: true,
                min_amount: params.min_amount,
                max_amount: params.max_amount,
                total_funding: 0,
                milestone: Self::first_milestone(params, self.now),
                funding_period: params.funding_period,
                work_period: params.work_period,
                judging_period: params.judging_period,
                created_at: self.now,
            },
            contributions: Seq::empty(),
            entries: Seq::empty(),
        }
    }

    /// What `create_bounty` returns: the id of the new bounty, the next in
    /// sequence.
    pub open spec fn create_bounty_result(
        self,
        caller: Caller,
        params: BountyCreationParameters,
    ) -> Result<BountyId, Error> {
        match self.create_bounty_refusal(caller, params) {
            Some(error) => Err(error),
            None => Ok(self.next_bounty_id()),
        }
    }

    /// The state `create_bounty` leaves: the cherry went into escrow, the
    /// bounty is stored in its first milestone, the counter moved on and
    /// the creation is reported.
    pub open spec fn after_create_bounty(
        self,
        caller: Caller,
        params: BountyCreationParameters,
    ) -> State {
        if self.create_bounty_refusal(caller, params) is Some {
            self
        } else {
            let paid = self.after_payment(caller, params.creator, params.cherry);
            State {
                bounty_count: self.next_bounty_id(),
                bounties: self.bounties.insert(
                    self.next_bounty_id(),
                    self.created_bounty(caller, params),
                ),
                events: self.events.push(
                    EventView::BountyCreated(self.next_bounty_id(), params),
                ),
                ..paid
            }
        }
    }

    // Cancellation

    /// Why `cancel_bounty` is refused, if it is.
    pub open spec fn cancel_bounty_refusal(
        self,
        caller: Caller,
        creator: BountyActor,
        bounty_id: BountyId,
    ) -> Option<Error> {
        if !self.bounties.contains_key(bounty_id) {
            Some(Error::BountyNotFound)
        } else if self.bounties[bounty_id].bounty.spec_transition(self.now, Action::Cancel)
            is None {
            Some(Error::InvalidMilestone)
        } else if creator != self.bounties[bounty_id].bounty.creator || !self.authority.authorizes(
            caller,
            creator,
        ) {
            Some(Error::Unauthorized)
        } else {
            None
        }
    }

    /// What `cancel_bounty` returns.
    pub open spec fn cancel_bounty_result(
        self,
        caller: Caller,
        creator: BountyActor,
        bounty_id: BountyId,
    ) -> Result<(), Error> {
        match self.cancel_bounty_refusal(caller, creator, bounty_id) {
            Some(error) => Err(error),
            None => Ok(()),
        }
    }

    /// The state `cancel_bounty` leaves: the bounty is canceled and the
    /// cancellation reported.
    pub open spec fn after_cancel_bounty(
        self,
        caller: Caller,
        creator: BountyActor,
        bounty_id: BountyId,
    ) -> State {
        if self.cancel_bounty_refusal(caller, creator, bounty_id) is Some {
            self
        } else {
            State {
                bounties: self.bounties.insert(
                    bounty_id,
                    self.bounties[bounty_id].at(BountyMilestone::Canceled),
                ),
                events: self.events.push(EventView::BountyCanceled(bounty_id, creator)),
                ..self
            }
        }
    }

    /// Why `veto_bounty` is refused, if it is.
    pub open spec fn veto_bounty_refusal(
        self,
        caller: Caller,
        bounty_id: BountyId,
    ) -> Option<Error> {
        if !self.bounties.contains_key(bounty_id) {
            Some(Error::BountyNotFound)
        } else if self.bounties[bounty_id].bounty.spec_transition(self.now, Action::Veto) is None {
            Some(Error::InvalidMilestone)
        } else if !self.authority.authorizes(caller, BountyActor::Council) {
            Some(Error::Unauthorized)
        } else {
            None
        }
    }

    /// What `veto_bounty` returns.
    pub open spec fn veto_bounty_result(self, caller: Caller, bounty_id: BountyId) -> Result<
        (),
        Error,
    > {
        match self.veto_bounty_refusal(caller, bounty_id) {
            Some(error) => Err(error),
            None => Ok(()),
        }
    }

    /// The state `veto_bounty` leaves: the bounty is canceled, whatever it
    /// holds, and the veto reported.
    pub open spec fn after_veto_bounty(self, caller: Caller, bounty_id: BountyId) -> State {
        if self.veto_bounty_refusal(caller, bounty_id) is Some {
            self
        } else {
            State {
                bounties: self.bounties.insert(
                    bounty_id,
                    self.bounties[bounty_id].at(BountyMilestone::Canceled),
                ),
                events: self.events.push(EventView::BountyVetoed(bounty_id)),
                ..self
            }
        }
    }

    // Funding

    /// Why `fund_bounty` is refused, if it is.
    pub open spec fn fund_bounty_refusal(
        self,
        caller: Caller,
        funder: BountyActor,
        bounty_id: BountyId,
        amount: Balance,
    ) -> Option<Error> {
        if !self.bounties.contains_key(bounty_id) {
            Some(Error::BountyNotFound)
        } else if !self.bounties[bounty_id].bounty.spec_accepts_funding(self.now) {
            Some(Error::BountyNotInFundingMilestone)
        } else if !self.authority.authorizes(caller, funder) {
            Some(Error::Unauthorized)
        } else if amount == 0 {
            Some(Error::ZeroAmount)
        } else if self.bounties[bounty_id].bounty.total_funding + amount
            > self.bounties[bounty_id].bounty.max_amount {
            Some(Error::FundingExceedsCap)
        } else if !self.can_afford(caller, funder, amount) {
            Some(Error::InsufficientBalance)
        } else {
            None
        }
    }

    /// What `fund_bounty` returns.
    pub open spec fn fund_bounty_result(
        self,
        caller: Caller,
        funder: BountyActor,
        bounty_id: BountyId,
        amount: Balance,
    ) -> Result<(), Error> {
        match self.fund_bounty_refusal(caller, funder, bounty_id, amount) {
            Some(error) => Err(error),
            None => Ok(()),
        }
    }

    /// The bounty after an accepted contribution: the funder's row and the
    /// total grew by `amount`; at the cap the work stage starts at once.
    pub open spec fn funded_bounty(
        self,
        funder: BountyActor,
        bounty_id: BountyId,
        amount: Balance,
    ) -> BountyState {
        let before = self.bounties[bounty_id];
        let total = (before.bounty.total_funding + amount) as Balance;
        BountyState {
            bounty: Bounty {
                total_funding: total,
                milestone: if total == before.bounty.max_amount {
                    BountyMilestone::WorkSubmission { started_at: self.now }
                } else {
                    before.bounty.spec_effective_milestone(self.now)
                },
                ..before.bounty
            },
            contributions: with_contribution(before.contributions, funder, amount),
            ..before
        }
    }

    /// The state `fund_bounty` leaves: `amount` went from the funder into
    /// escrow and onto the bounty; reaching the cap is reported.
    pub open spec fn after_fund_bounty(
        self,
        caller: Caller,
        funder: BountyActor,
        bounty_id: BountyId,
        amount: Balance,
    ) -> State {
        if self.fund_bounty_refusal(caller, funder, bounty_id, amount) is Some {
            self
        } else {
            let paid = self.after_payment(caller, funder, amount);
            let funded = self.funded_bounty(funder, bounty_id, amount);
            State {
                bounties: self.bounties.insert(bounty_id, funded),
                events: if funded.bounty.total_funding == funded.bounty.max_amount {
                    self.events.push(EventView::BountyMaxFundingReached(bounty_id))
                } else {
                    self.events
                },
                ..paid
            }
        }
    }

    /// Why `withdraw_funding` is refused, if it is.
    pub open spec fn withdraw_funding_refusal(
        self,
        caller: Caller,
        funder: BountyActor,
        bounty_id: BountyId,
    ) -> Option<Error> {
        if !self.bounties.contains_key(bounty_id) {
            Some(Error::BountyNotFound)
        } else if !self.bounties[bounty_id].bounty.spec_refunds_open(self.now) {
            Some(Error::InvalidMilestone)
        } else if !self.authority.authorizes(caller, funder) {
            Some(Error::Unauthorized)
        } else if contribution(self.bounties[bounty_id].contributions, funder) is None {
            Some(Error::NoContributionFound)
        } else {
            None
        }
    }

    /// What `withdraw_funding` returns: the refunded amount, which is all
    /// the funder had outstanding.
    pub open spec fn withdraw_funding_result(
        self,
        caller: Caller,
        funder: BountyActor,
        bounty_id: BountyId,
    ) -> Result<Balance, Error> {
        match self.withdraw_funding_refusal(caller, funder, bounty_id) {
            Some(error) => Err(error),
            None => Ok(contribution(self.bounties[bounty_id].contributions, funder).unwrap()),
        }
    }

    /// A refund to `funder` takes the cherry along: the funding failed, the
    /// funder is the last with something outstanding, and the cherry is
    /// still in escrow. The bounty is then removed and the cherry goes
    /// back to the creator with it.
    pub open spec fn refund_takes_cherry_along(
        self,
        funder: BountyActor,
        bounty_id: BountyId,
    ) -> bool {
        let before = self.bounties[bounty_id];
        &&& before.bounty.spec_funding_failed(self.now)
        &&& before.bounty.cherry_in_escrow
        &&& without_funder(before.contributions, funder).len() == 0
    }

    /// The bounty after `funder` took the contribution back.
    pub open spec fn refunded_bounty(
        self,
        funder: BountyActor,
        bounty_id: BountyId,
    ) -> BountyState {
        let before = self.bounties[bounty_id];
        let amount = contribution(before.contributions, funder).unwrap();
        BountyState {
            bounty: Bounty {
                total_funding: (before.bounty.total_funding - amount) as Balance,
                milestone: before.bounty.spec_effective_milestone(self.now),
                cherry_in_escrow: before.bounty.cherry_in_escrow
                    && !self.refund_takes_cherry_along(funder, bounty_id),
                ..before.bounty
            },
            contributions: without_funder(before.contributions, funder),
            ..before
        }
    }

    /// The state `withdraw_funding` leaves: the funder's row is gone and
    /// its amount back with the funder. Where the funding failed and this
    /// was the last row, the cherry goes back to the creator as well. A
    /// bounty that holds nothing any more is removed.
    pub open spec fn after_withdraw_funding(
        self,
        caller: Caller,
        funder: BountyActor,
        bounty_id: BountyId,
    ) -> State {
        if self.withdraw_funding_refusal(caller, funder, bounty_id) is Some {
            self
        } else {
            let before = self.bounties[bounty_id];
            let amount = contribution(before.contributions, funder).unwrap();
            let refunded = self.after_refund(caller, funder, amount);
            let released = if self.refund_takes_cherry_along(funder, bounty_id) {
                refunded.after_cherry_release(before.bounty.creator_account, before.bounty.cherry)
            } else {
                refunded
            };
            released.settled(self.refunded_bounty(funder, bounty_id))
        }
    }

    // Cherry

    /// Why `withdraw_creator_cherry` is refused, if it is.
    pub open spec fn withdraw_creator_cherry_refusal(
        self,
        caller: Caller,
        creator: BountyActor,
        bounty_id: BountyId,
    ) -> Option<Error> {
        if !self.bounties.contains_key(bounty_id) {
            Some(Error::BountyNotFound)
        } else if !self.bounties[bounty_id].bounty.spec_cherry_claimable(self.now) {
            Some(Error::InvalidMilestone)
        } else if creator != self.bounties[bounty_id].bounty.creator || !self.authority.authorizes(
            caller,
            creator,
        ) {
            Some(Error::Unauthorized)
        } else if !self.bounties[bounty_id].bounty.cherry_in_escrow {
            Some(Error::NoCherryInEscrow)
        } else {
            None
        }
    }

    /// What `withdraw_creator_cherry` returns: the released cherry.
    pub open spec fn withdraw_creator_cherry_result(
        self,
        caller: Caller,
        creator: BountyActor,
        bounty_id: BountyId,
    ) -> Result<Balance, Error> {
        match self.withdraw_creator_cherry_refusal(caller, creator, bounty_id) {
            Some(error) => Err(error),
            None => Ok(self.bounties[bounty_id].bounty.cherry),
        }
    }

    /// The bounty after the cherry left escrow.
    pub open spec fn bounty_without_cherry(self, bounty_id: BountyId) -> BountyState {
        let before = self.bounties[bounty_id];
        BountyState {
            bounty: Bounty {
                cherry_in_escrow: false,
                milestone: before.bounty.spec_effective_milestone(self.now),
                ..before.bounty
            },
            ..before
        }
    }

    /// The state `withdraw_creator_cherry` leaves: the cherry is back where
    /// the creator paid it from; a bounty that holds nothing any more is
    /// removed.
    pub open spec fn after_withdraw_creator_cherry(
        self,
        caller: Caller,
        creator: BountyActor,
        bounty_id: BountyId,
    ) -> State {
        if self.withdraw_creator_cherry_refusal(caller, creator, bounty_id) is Some {
            self
        } else {
            self.after_cherry_release(
                self.bounties[bounty_id].bounty.creator_account,
                self.bounties[bounty_id].bounty.cherry,
            ).settled(self.bounty_without_cherry(bounty_id))
        }
    }

    // Work entries

    /// Why `announce_work_entry` is refused, if it is.
    pub open spec fn announce_work_entry_refusal(
        self,
        caller: Caller,
        member_id: MemberId,
        bounty_id: BountyId,
    ) -> Option<Error> {
        if !self.bounties.contains_key(bounty_id) {
            Some(Error::BountyNotFound)
        } else if !self.bounties[bounty_id].bounty.spec_accepts_work(self.now) {
            Some(Error::InvalidMilestone)
        } else if !self.authority.authorizes(caller, BountyActor::Member(member_id)) {
            Some(Error::Unauthorized)
        } else {
            None
        }
    }

    /// The id the next work entry gets.
    pub open spec fn next_work_entry_id(self) -> WorkEntryId {
        (self.work_entry_count + 1) as WorkEntryId
    }

    /// What `announce_work_entry` returns: the id of the new entry, the next
    /// in sequence.
    pub open spec fn announce_work_entry_result(
        self,
        caller: Caller,
        member_id: MemberId,
        bounty_id: BountyId,
    ) -> Result<WorkEntryId, Error> {
        match self.announce_work_entry_refusal(caller, member_id, bounty_id) {
            Some(error) => Err(error),
            None => Ok(self.next_work_entry_id()),
        }
    }

    /// The bounty brought up to date at the current tick, with `entries`.
    pub open spec fn bounty_with_entries(
        self,
        bounty_id: BountyId,
        entries: Seq<WorkEntryView>,
    ) -> BountyState {
        let before = self.bounties[bounty_id];
        BountyState {
            entries,
            ..before.at(before.bounty.spec_effective_milestone(self.now))
        }
    }

    /// The state `announce_work_entry` leaves: a fresh entry without a
    /// submission is stored, the counter moved on and the entry is reported.
    pub open spec fn after_announce_work_entry(
        self,
        caller: Caller,
        member_id: MemberId,
        bounty_id: BountyId,
        staking_account_id: Option<AccountId>,
    ) -> State {
        if self.announce_work_entry_refusal(caller, member_id, bounty_id) is Some {
            self
        } else {
            let entry_id = self.next_work_entry_id();
            State {
                work_entry_count: entry_id,
                bounties: self.bounties.insert(
                    bounty_id,
                    self.bounty_with_entries(
                        bounty_id,
                        self.bounties[bounty_id].entries.push(
                            announced(entry_id, bounty_id, member_id, staking_account_id),
                        ),
                    ),
                ),
                events: self.events.push(
                    EventView::WorkEntryAnnounced(
                        bounty_id,
                        entry_id,
                        member_id,
                        staking_account_id,
                    ),
                ),
                ..self
            }
        }
    }

    /// Why a call is refused that a member makes on a work entry of its
    /// own, once the bounty is found and its milestone accepted.
    pub open spec fn entry_refusal(
        self,
        caller: Caller,
        member_id: MemberId,
        bounty_id: BountyId,
        entry_id: WorkEntryId,
    ) -> Option<Error> {
        if !self.authority.authorizes(caller, BountyActor::Member(member_id)) {
            Some(Error::Unauthorized)
        } else {
            match entry(self.bounties[bounty_id].entries, entry_id) {
                None => Some(Error::WorkEntryNotFound),
                Some(found) => if found.member_id != member_id {
                    Some(Error::Unauthorized)
                } else {
                    None
                },
            }
        }
    }

    /// Why `withdraw_work_entry` is refused, if it is.
    pub open spec fn withdraw_work_entry_refusal(
        self,
        caller: Caller,
        member_id: MemberId,
        bounty_id: BountyId,
        entry_id: WorkEntryId,
    ) -> Option<Error> {
        if !self.bounties.contains_key(bounty_id) {
            Some(Error::BountyNotFound)
        } else {
            self.entry_refusal(caller, member_id, bounty_id, entry_id)
        }
    }

    /// What `withdraw_work_entry` returns.
    pub open spec fn withdraw_work_entry_result(
        self,
        caller: Caller,
        member_id: MemberId,
        bounty_id: BountyId,
        entry_id: WorkEntryId,
    ) -> Result<(), Error> {
        match self.withdraw_work_entry_refusal(caller, member_id, bounty_id, entry_id) {
            Some(error) => Err(error),
            None => Ok(()),
        }
    }

    /// The state `withdraw_work_entry` leaves: the entry is gone and its
    /// withdrawal reported.
    pub open spec fn after_withdraw_work_entry(
        self,
        caller: Caller,
        member_id: MemberId,
        bounty_id: BountyId,
        entry_id: WorkEntryId,
    ) -> State {
        if self.withdraw_work_entry_refusal(caller, member_id, bounty_id, entry_id) is Some {
            self
        } else {
            State {
                bounties: self.bounties.insert(
                    bounty_id,
                    self.bounty_with_entries(
                        bounty_id,
                        without_entry(self.bounties[bounty_id].entries, entry_id),
                    ),
                ),
                events: self.events.push(
                    EventView::WorkEntryWithdrawn(bounty_id, entry_id, member_id),
                ),
                ..self
            }
        }
    }

    /// Why `submit_work` is refused, if it is.
    pub open spec fn submit_work_refusal(
        self,
        caller: Caller,
        member_id: MemberId,
        bounty_id: BountyId,
        entry_id: WorkEntryId,
    ) -> Option<Error> {
        if !self.bounties.contains_key(bounty_id) {
            Some(Error::BountyNotFound)
        } else if !self.bounties[bounty_id].bounty.spec_accepts_work(self.now) {
            Some(Error::InvalidMilestone)
        } else {
            self.entry_refusal(caller, member_id, bounty_id, entry_id)
        }
    }

    /// What `submit_work` returns.
    pub open spec fn submit_work_result(
        self,
        caller: Caller,
        member_id: MemberId,
        bounty_id: BountyId,
        entry_id: WorkEntryId,
    ) -> Result<(), Error> {
        match self.submit_work_refusal(caller, member_id, bounty_id, entry_id) {
            Some(error) => Err(error),
            None => Ok(()),
        }
    }

    /// The state that recording a submission leaves: `fingerprint` is the
    /// latest submission of the entry, in place of any earlier one, and the
    /// payload is reported.
    pub open spec fn after_record_work(
        self,
        caller: Caller,
        member_id: MemberId,
        bounty_id: BountyId,
        entry_id: WorkEntryId,
        work_data: Seq<u8>,
        fingerprint: Seq<u8>,
    ) -> State {
        if self.submit_work_refusal(caller, member_id, bounty_id, entry_id) is Some {
            self
        } else {
            State {
                bounties: self.bounties.insert(
                    bounty_id,
                    self.bounty_with_entries(
                        bounty_id,
                        with_submission(self.bounties[bounty_id].entries, entry_id, fingerprint),
                    ),
                ),
                events: self.events.push(
                    EventView::WorkSubmitted(bounty_id, entry_id, member_id, work_data),
                ),
                ..self
            }
        }
    }

    /// The state `submit_work` leaves: the Blake2 digest of the payload is
    /// recorded.
    pub open spec fn after_submit_work(
        self,
        caller: Caller,
        member_id: MemberId,
        bounty_id: BountyId,
        entry_id: WorkEntryId,
        work_data: Seq<u8>,
    ) -> State {
        self.after_record_work(
            caller,
            member_id,
            bounty_id,
            entry_id,
            work_data,
            blake2_256(work_data),
        )
    }

    // Time

    /// The state after the tick moved on to `target`; it never moves back.
    pub open spec fn after_run_to_block(self, target: BlockNumber) -> State {
        State { now: if self.now < target { target } else { self.now }, ..self }
    }

    // Any call

    /// Why `call` is refused, if it is.
    pub open spec fn refusal(self, call: Call) -> Option<Error> {
        match call {
            Call::CreateBounty { caller, params } => self.create_bounty_refusal(caller, params),
            Call::CancelBounty { caller, creator, bounty_id } => self.cancel_bounty_refusal(
                caller,
                creator,
                bounty_id,
            ),
            Call::VetoBounty { caller, bounty_id } => self.veto_bounty_refusal(caller, bounty_id),
            Call::FundBounty { caller, funder, bounty_id, amount } => self.fund_bounty_refusal(
                caller,
                funder,
                bounty_id,
                amount,
            ),
            Call::WithdrawFunding { caller, funder, bounty_id } => self.withdraw_funding_refusal(
                caller,
                funder,
                bounty_id,
            ),
            Call::WithdrawCreatorCherry { caller, creator, bounty_id } =>
                self.withdraw_creator_cherry_refusal(caller, creator, bounty_id),
            Call::AnnounceWorkEntry { caller, member_id, bounty_id, .. } =>
                self.announce_work_entry_refusal(caller, member_id, bounty_id),
            Call::WithdrawWorkEntry { caller, member_id, bounty_id, entry_id } =>
                self.withdraw_work_entry_refusal(caller, member_id, bounty_id, entry_id),
            Call::SubmitWork { caller, member_id, bounty_id, entry_id, .. } =>
                self.submit_work_refusal(caller, member_id, bounty_id, entry_id),
            Call::RunToBlock { .. } => None,
        }
    }

    /// The state `call` leaves.
    pub open spec fn after(self, call: Call) -> State {
        match call {
            Call::CreateBounty { caller, params } => self.after_create_bounty(caller, params),
            Call::CancelBounty { caller, creator, bounty_id } => self.after_cancel_bounty(
                caller,
                creator,
                bounty_id,
            ),
            Call::VetoBounty { caller, bounty_id } => self.after_veto_bounty(caller, bounty_id),
            Call::FundBounty { caller, funder, bounty_id, amount } => self.after_fund_bounty(
                caller,
                funder,
                bounty_id,
                amount,
            ),
            Call::WithdrawFunding { caller, funder, bounty_id } => self.after_withdraw_funding(
                caller,
                funder,
                bounty_id,
            ),
            Call::WithdrawCreatorCherry { caller, creator, bounty_id } =>
                self.after_withdraw_creator_cherry(caller, creator, bounty_id),
            Call::AnnounceWorkEntry { caller, member_id, bounty_id, staking_account_id } =>
                self.after_announce_work_entry(caller, member_id, bounty_id, staking_account_id),
            Call::WithdrawWorkEntry { caller, member_id, bounty_id, entry_id } =>
                self.after_withdraw_work_entry(caller, member_id, bounty_id, entry_id),
            Call::SubmitWork { caller, member_id, bounty_id, entry_id, work_data } =>
                self.after_submit_work(caller, member_id, bounty_id, entry_id, work_data),
            Call::RunToBlock { target } => self.after_run_to_block(target),
        }
    }

    /// What the bounty `bounty_id` holds in escrow: what was raised and is
    /// outstanding, and the cherry as long as it has not been released. An
    /// id without a bounty holds nothing.
    pub open spec fn held(self, bounty_id: BountyId) -> int {
        if self.bounties.contains_key(bounty_id) {
            let bounty = self.bounties[bounty_id].bounty;
            bounty.total_funding + if bounty.cherry_in_escrow {
                bounty.cherry as int
            } else {
                0
            }
        } else {
            0
        }
    }

    /// What `call` takes from its payer into the escrow of the bounty
    /// `bounty_id`: the cherry when the bounty is created, the amount of
    /// an accepted contribution.
    pub open spec fn paid_in(self, call: Call, bounty_id: BountyId) -> int {
        if self.refusal(call) is Some {
            0
        } else {
            match call {
                Call::CreateBounty { params, .. } => if bounty_id == self.next_bounty_id() {
                    params.cherry as int
                } else {
                    0
                },
                Call::FundBounty { bounty_id: target, amount, .. } => if bounty_id == target {
                    amount as int
                } else {
                    0
                },
                _ => 0,
            }
        }
    }

    /// What `call` returns from the escrow of the bounty `bounty_id`: a
    /// funder's contribution, with the cherry where the refund takes it
    /// along, or the cherry that the creator withdraws.
    pub open spec fn paid_out(self, call: Call, bounty_id: BountyId) -> int {
        if self.refusal(call) is Some {
            0
        } else {
            match call {
                Call::WithdrawFunding { funder, bounty_id: target, .. } => if bounty_id == target {
                    contribution(self.bounties[target].contributions, funder).unwrap() + (
                    if self.refund_takes_cherry_along(funder, target) {
                        self.bounties[target].bounty.cherry as int
                    } else {
                        0
                    })
                } else {
                    0
                },
                Call::WithdrawCreatorCherry { bounty_id: target, .. } => if bounty_id == target {
                    self.bounties[target].bounty.cherry as int
                } else {
                    0
                },
                _ => 0,
            }
        }
    }

    /// `call` can be made without a counter running over.
    pub open spec fn has_room_for(self, call: Call) -> bool {
        match call {
            Call::CreateBounty { .. } => self.bounty_count < BountyId::MAX,
            Call::AnnounceWorkEntry { .. } => self.work_entry_count < WorkEntryId::MAX,
            _ => true,
        }
    }
}

} // verus!
