//! The bounty registry: it owns the bounties with their sub-ledgers, checks
//! every call against the milestone the bounty has reached, and moves value
//! through the collaborators it was built with.

use super::collaborators::{AuthorityCheck, BudgetPool, EscrowLedger};
use super::fingerprint::digest_of;
use super::funding::{lemma_row_unique, FundingLedger};
use super::laws::{law_calls_preserve_well_formedness, law_recording_preserves_well_formedness};
use super::milestone::Action;
use super::model::{BountyState, Call, State};
use super::types::{
    AccountId, Balance, BlockNumber, Bounty, BountyActor, BountyCreationParameters, BountyId,
    BountyMilestone, Caller, Error, Event, EventView, MemberId, WorkEntry, WorkEntryId,
};
use super::work::{copy_bytes, WorkEntryRegistry};
use std::collections::HashMap;
use vstd::prelude::*;

verus! {

broadcast use vstd::std_specs::hash::group_hash_axioms;

/// A bounty as the registry stores it.
struct BountyEntry {
    bounty: Bounty,
    funding: FundingLedger,
    work: WorkEntryRegistry,
}

impl View for BountyEntry {
    type V = BountyState;

    closed spec fn view(&self) -> BountyState {
        BountyState { bounty: self.bounty, contributions: self.funding@, entries: self.work@ }
    }
}

/// A copy of `event`.
fn copy_event(event: &Event) -> (copy: Event)
    ensures
        copy@ == event@,
{
    match event {
        Event::BountyCreated(id, params) => Event::BountyCreated(*id, *params),
        Event::BountyCanceled(id, actor) => Event::BountyCanceled(*id, *actor),
        Event::BountyVetoed(id) => Event::BountyVetoed(*id),
        Event::BountyMaxFundingReached(id) => Event::BountyMaxFundingReached(*id),
        Event::BountyRemoved(id) => Event::BountyRemoved(*id),
        Event::WorkEntryAnnounced(id, entry, member, account) => Event::WorkEntryAnnounced(
            *id,
            *entry,
            *member,
            *account,
        ),
        Event::WorkEntryWithdrawn(id, entry, member) => Event::WorkEntryWithdrawn(
            *id,
            *entry,
            *member,
        ),
        Event::WorkSubmitted(id, entry, member, payload) => Event::WorkSubmitted(
            *id,
            *entry,
            *member,
            copy_bytes(payload),
        ),
    }
}

/// What the registry keeps: the tick, the counters, the bounties and the
/// events.
pub struct Registry {
    now: BlockNumber,
    bounty_count: BountyId,
    work_entry_count: WorkEntryId,
    bounties: HashMap<BountyId, BountyEntry>,
    events: Vec<Event>,
}

/// The bounty registry, built around an authority, an escrow ledger and the
/// council's budget.
pub struct BountyLifecycle<A: AuthorityCheck, L: EscrowLedger, P: BudgetPool> {
    /// Who may act.
    pub authority: A,
    /// Where members' balances live.
    pub ledger: L,
    /// The council's budget.
    pub budget: P,
    /// The bounties and what belongs to them.
    pub registry: Registry,
}

impl Registry {
    /// The current tick.
    pub closed spec fn tick(&self) -> BlockNumber {
        self.now
    }

    /// The id of the bounty created last.
    pub closed spec fn last_bounty_id(&self) -> BountyId {
        self.bounty_count
    }

    /// The id of the work entry announced last.
    pub closed spec fn last_work_entry_id(&self) -> WorkEntryId {
        self.work_entry_count
    }

    /// The registered bounties by id.
    pub closed spec fn stored_bounties(&self) -> Map<BountyId, BountyState> {
        self.bounties@.map_values(|entry: BountyEntry| entry@)
    }

    /// The events reported so far, oldest first.
    pub closed spec fn reported_events(&self) -> Seq<EventView> {
        Seq::new(self.events@.len(), |i: int| self.events@[i]@)
    }
}

impl<A: AuthorityCheck, L: EscrowLedger, P: BudgetPool> View for BountyLifecycle<A, L, P> {
    type V = State;

    open spec fn view(&self) -> State {
        State {
            now: self.registry.tick(),
            bounty_count: self.registry.last_bounty_id(),
            work_entry_count: self.registry.last_work_entry_id(),
            bounties: self.registry.stored_bounties(),
            events: self.registry.reported_events(),
            balances: self.ledger.balances(),
            budget: self.budget.budget(),
            authority: self.authority.rules(),
        }
    }
}

impl<A: AuthorityCheck, L: EscrowLedger, P: BudgetPool> BountyLifecycle<A, L, P> {
    /// An empty registry at tick 0 around the given collaborators.
    pub fn new(authority: A, ledger: L, budget: P) -> (registry: Self)
        ensures
            registry.authority == authority,
            registry.ledger == ledger,
            registry.budget == budget,
            registry@ == State::initial(ledger.balances(), budget.budget(), authority.rules()),
            registry@.wf(),
    {
        let registry = BountyLifecycle {
            authority,
            ledger,
            budget,
            registry: Registry {
                now: 0,
                bounty_count: 0,
                work_entry_count: 0,
                bounties: HashMap::new(),
                events: Vec::new(),
            },
        };
        proof {
            assert(registry@.bounties =~= Map::empty());
            assert(registry@.events =~= Seq::empty());
        }
        registry
    }

    // Reading

    /// The current tick.
    pub fn now(&self) -> (now: BlockNumber)
        ensures
            now == self@.now,
    {
        self.registry.now
    }

    /// The id of the bounty created last; 0 before the first.
    pub fn bounty_count(&self) -> (count: BountyId)
        ensures
            count == self@.bounty_count,
    {
        self.registry.bounty_count
    }

    /// The id of the work entry announced last; 0 before the first.
    pub fn work_entry_count(&self) -> (count: WorkEntryId)
        ensures
            count == self@.work_entry_count,
    {
        self.registry.work_entry_count
    }

    fn peek(&self, bounty_id: BountyId) -> (found: Option<&BountyEntry>)
        ensures
            match found {
                Some(entry) => self@.bounties.contains_key(bounty_id) && self@.bounties[bounty_id]
                    == entry@,
                None => !self@.bounties.contains_key(bounty_id),
            },
    {
        self.registry.bounties.get(&bounty_id)
    }

    /// Whether a bounty is registered under `bounty_id`.
    pub fn contains_bounty(&self, bounty_id: BountyId) -> (found: bool)
        ensures
            found == self@.bounties.contains_key(bounty_id),
    {
        self.peek(bounty_id).is_some()
    }

    /// The stored facts of the bounty `bounty_id`, as the last call that
    /// touched it left them.
    pub fn bounties(&self, bounty_id: BountyId) -> (found: Option<Bounty>)
        ensures
            found == if self@.bounties.contains_key(bounty_id) {
                Some(self@.bounties[bounty_id].bounty)
            } else {
                None
            },
    {
        match self.peek(bounty_id) {
            Some(entry) => Some(entry.bounty),
            None => None,
        }
    }

    /// What `funder` has outstanding in the bounty `bounty_id`, if
    /// anything.
    pub fn contribution(&self, bounty_id: BountyId, funder: BountyActor) -> (amount: Option<
        Balance,
    >)
        requires
            self@.wf(),
        ensures
            amount == if self@.bounties.contains_key(bounty_id) {
                super::funding::contribution(self@.bounties[bounty_id].contributions, funder)
            } else {
                None
            },
    {
        match self.peek(bounty_id) {
            Some(entry) => entry.funding.contribution_of(funder),
            None => None,
        }
    }

    /// Whether the bounty `bounty_id` has a work entry `entry_id`.
    pub fn contains_work_entry(&self, bounty_id: BountyId, entry_id: WorkEntryId) -> (found: bool)
        requires
            self@.wf(),
        ensures
            found == (self@.bounties.contains_key(bounty_id) && super::work::has_entry(
                self@.bounties[bounty_id].entries,
                entry_id,
            )),
    {
        match self.peek(bounty_id) {
            Some(entry) => entry.work.contains(entry_id),
            None => false,
        }
    }

    /// A copy of the work entry `entry_id` of the bounty `bounty_id`, if
    /// there is one.
    pub fn work_entries(&self, bounty_id: BountyId, entry_id: WorkEntryId) -> (found: Option<
        WorkEntry,
    >)
        requires
            self@.wf(),
        ensures
            match found {
                Some(copy) => self@.bounties.contains_key(bounty_id) && super::work::entry(
                    self@.bounties[bounty_id].entries,
                    entry_id,
                ) == Some(copy@),
                None => !self@.bounties.contains_key(bounty_id) || super::work::entry(
                    self@.bounties[bounty_id].entries,
                    entry_id,
                ) is None,
            },
    {
        match self.peek(bounty_id) {
            Some(entry) => entry.work.get(entry_id),
            None => None,
        }
    }

    /// The number of events reported so far.
    pub fn event_count(&self) -> (count: usize)
        ensures
            count == self@.events.len(),
    {
        self.registry.events.len()
    }

    /// A copy of the event reported last, if any was.
    pub fn last_event(&self) -> (last: Option<Event>)
        ensures
            match last {
                Some(event) => self@.events.len() > 0 && event@ == self@.events.last(),
                None => self@.events.len() == 0,
            },
    {
        let count = self.registry.events.len();
        if count == 0 {
            None
        } else {
            Some(copy_event(&self.registry.events[count - 1]))
        }
    }

    // Building blocks

    fn authorizes(&self, caller: Caller, actor: BountyActor) -> (ok: bool)
        ensures
            ok == self@.authority.authorizes(caller, actor),
    {
        match actor {
            BountyActor::Council => self.authority.is_privileged(&caller),
            BountyActor::Member(member_id) => self.authority.controls(&caller, member_id),
        }
    }

    fn pay(&mut self, caller: Caller, actor: BountyActor, amount: Balance) -> (paid: bool)
        ensures
            paid == old(self)@.can_afford(caller, actor, amount),
            final(self)@ == if paid {
                old(self)@.after_payment(caller, actor, amount)
            } else {
                old(self)@
            },
    {
        match actor {
            BountyActor::Council => {
                let budget = self.budget.get_budget();
                if amount <= budget {
                    self.budget.set_budget(budget - amount);
                    true
                } else {
                    false
                }
            },
            BountyActor::Member(_) => match caller {
                Caller::Signed(account) => self.ledger.reserve(account, amount).is_ok(),
                Caller::Root => false,
            },
        }
    }

    fn refund(&mut self, caller: Caller, actor: BountyActor, amount: Balance)
        ensures
            final(self)@ == old(self)@.after_refund(caller, actor, amount),
    {
        match actor {
            BountyActor::Council => {
                let budget = self.budget.get_budget();
                let sum = if amount > Balance::MAX - budget {
                    Balance::MAX
                } else {
                    budget + amount
                };
                self.budget.set_budget(sum);
            },
            BountyActor::Member(_) => match caller {
                Caller::Signed(account) => {
                    self.ledger.release(account, amount);
                },
                Caller::Root => {},
            },
        }
    }

    fn release_cherry(&mut self, account: Option<AccountId>, cherry: Balance)
        ensures
            final(self)@ == old(self)@.after_cherry_release(account, cherry),
    {
        match account {
            Some(account) => {
                self.ledger.release(account, cherry);
            },
            None => {
                let budget = self.budget.get_budget();
                let sum = if cherry > Balance::MAX - budget {
                    Balance::MAX
                } else {
                    budget + cherry
                };
                self.budget.set_budget(sum);
            },
        }
    }

    fn take(&mut self, bounty_id: BountyId) -> (entry: BountyEntry)
        requires
            old(self)@.bounties.contains_key(bounty_id),
        ensures
            entry@ == old(self)@.bounties[bounty_id],
            final(self)@ == (State {
                bounties: old(self)@.bounties.remove(bounty_id),
                ..old(self)@
            }),
    {
        let taken = self.registry.bounties.remove(&bounty_id);
        proof {
            assert(self@.bounties =~= old(self)@.bounties.remove(bounty_id));
        }
        taken.unwrap()
    }

    fn put(&mut self, entry: BountyEntry)
        ensures
            final(self)@ == (State {
                bounties: old(self)@.bounties.insert(entry@.bounty.id, entry@),
                ..old(self)@
            }),
    {
        let ghost stored = entry@;
        self.registry.bounties.insert(entry.bounty.id, entry);
        proof {
            assert(self@.bounties =~= old(self)@.bounties.insert(stored.bounty.id, stored));
        }
    }

    fn report(&mut self, event: Event)
        ensures
            final(self)@ == (State { events: old(self)@.events.push(event@), ..old(self)@ }),
    {
        let ghost reported = event@;
        self.registry.events.push(event);
        proof {
            assert(self@.events =~= old(self)@.events.push(reported));
        }
    }

    fn settle(&mut self, entry: BountyEntry)
        requires
            !old(self)@.bounties.contains_key(entry@.bounty.id),
        ensures
            final(self)@ == old(self)@.settled(entry@),
    {
        if !entry.bounty.cherry_in_escrow && entry.funding.is_empty() {
            let bounty_id = entry.bounty.id;
            self.report(Event::BountyRemoved(bounty_id));
            proof {
                assert(self@.bounties =~= old(self)@.bounties.remove(bounty_id));
            }
        } else {
            self.put(entry);
        }
    }

    // Creation

    /// Posts a bounty for `params.creator`. The caller must hold the
    /// creator's authority, the parameters must be valid and the creator
    /// must afford the cherry, which goes into escrow. The bounty gets the
    /// next id and starts in funding, or in work submission where no
    /// funding period is given. `_metadata` is for those who index the call
    /// and is not kept.
    pub fn create_bounty(
        &mut self,
        caller: Caller,
        params: BountyCreationParameters,
        _metadata: Vec<u8>,
    ) -> (outcome: Result<BountyId, Error>)
        requires
            old(self)@.wf(),
            old(self)@.bounty_count < BountyId::MAX,
        ensures
            outcome == old(self)@.create_bounty_result(caller, params),
            final(self)@ == old(self)@.after_create_bounty(caller, params),
            final(self)@.wf(),
    {
        proof {
            law_calls_preserve_well_formedness(old(self)@, Call::CreateBounty { caller, params });
        }
        if !self.authorizes(caller, params.creator) {
            return Err(Error::Unauthorized);
        }
        if !params.is_valid() {
            return Err(Error::InvalidPeriodConfiguration);
        }
        if !self.pay(caller, params.creator, params.cherry) {
            return Err(Error::InsufficientBalanceForCherry);
        }
        let bounty_id = self.registry.bounty_count + 1;
        let creator_account = match (params.creator, caller) {
            (BountyActor::Member(_), Caller::Signed(account)) => Some(account),
            _ => None,
        };
        let milestone = if params.funding_period.is_some() {
            BountyMilestone::Funding { started_at: self.registry.now }
        } else {
            BountyMilestone::WorkSubmission { started_at: self.registry.now }
        };
        let entry = BountyEntry {
            bounty: Bounty {
                id: bounty_id,
                creator: params.creator,
                creator_account,
                cherry: params.cherry,
                cherry_in_escrow: true,
                min_amount: params.min_amount,
                max_amount: params.max_amount,
                total_funding: 0,
                milestone,
                funding_period: params.funding_period,
                work_period: params.work_period,
                judging_period: params.judging_period,
                created_at: self.registry.now,
            },
            funding: FundingLedger::new(),
            work: WorkEntryRegistry::new(),
        };
        self.registry.bounty_count = bounty_id;
        self.put(entry);
        self.report(Event::BountyCreated(bounty_id, params));
        Ok(bounty_id)
    }

    // Cancellation

    /// Cancels a bounty for its creator. The bounty must be in funding and
    /// hold no contribution, and the caller must hold the authority of
    /// `creator`, who must be the bounty's creator.
    pub fn cancel_bounty(
        &mut self,
        caller: Caller,
        creator: BountyActor,
        bounty_id: BountyId,
    ) -> (outcome: Result<(), Error>)
        requires
            old(self)@.wf(),
        ensures
            outcome == old(self)@.cancel_bounty_result(caller, creator, bounty_id),
            final(self)@ == old(self)@.after_cancel_bounty(caller, creator, bounty_id),
            final(self)@.wf(),
    {
        proof {
            law_calls_preserve_well_formedness(
                old(self)@,
                Call::CancelBounty { caller, creator, bounty_id },
            );
        }
        let bounty = match self.peek(bounty_id) {
            Some(entry) => entry.bounty,
            None => {
                return Err(Error::BountyNotFound);
            },
        };
        let milestone = match bounty.transition(self.registry.now, Action::Cancel) {
            Some(milestone) => milestone,
            None => {
                return Err(Error::InvalidMilestone);
            },
        };
        if creator != bounty.creator || !self.authorizes(caller, creator) {
            return Err(Error::Unauthorized);
        }
        let mut entry = self.take(bounty_id);
        entry.bounty.milestone = milestone;
        self.put(entry);
        self.report(Event::BountyCanceled(bounty_id, creator));
        proof {
            assert(self@.bounties =~= old(self)@.after_cancel_bounty(
                caller,
                creator,
                bounty_id,
            ).bounties);
        }
        Ok(())
    }

    /// Cancels a bounty by privileged authority, whatever it holds. The
    /// bounty must be in funding or in work submission. What was
    /// contributed stays claimable by the funders.
    pub fn veto_bounty(&mut self, caller: Caller, bounty_id: BountyId) -> (outcome: Result<
        (),
        Error,
    >)
        requires
            old(self)@.wf(),
        ensures
            outcome == old(self)@.veto_bounty_result(caller, bounty_id),
            final(self)@ == old(self)@.after_veto_bounty(caller, bounty_id),
            final(self)@.wf(),
    {
        proof {
            law_calls_preserve_well_formedness(old(self)@, Call::VetoBounty { caller, bounty_id });
        }
        let bounty = match self.peek(bounty_id) {
            Some(entry) => entry.bounty,
            None => {
                return Err(Error::BountyNotFound);
            },
        };
        let milestone = match bounty.transition(self.registry.now, Action::Veto) {
            Some(milestone) => milestone,
            None => {
                return Err(Error::InvalidMilestone);
            },
        };
        if !self.authorizes(caller, BountyActor::Council) {
            return Err(Error::Unauthorized);
        }
        let mut entry = self.take(bounty_id);
        entry.bounty.milestone = milestone;
        self.put(entry);
        self.report(Event::BountyVetoed(bounty_id));
        proof {
            assert(self@.bounties =~= old(self)@.after_veto_bounty(caller, bounty_id).bounties);
        }
        Ok(())
    }

    // Funding

    /// Contributes `amount` to a bounty for `funder`. The bounty must take
    /// contributions, the caller must hold the funder's authority, the
    /// amount must be positive, must not push the raised amount above the
    /// cap and must be affordable. At the cap the work stage starts at
    /// once.
    pub fn fund_bounty(
        &mut self,
        caller: Caller,
        funder: BountyActor,
        bounty_id: BountyId,
        amount: Balance,
    ) -> (outcome: Result<(), Error>)
        requires
            old(self)@.wf(),
        ensures
            outcome == old(self)@.fund_bounty_result(caller, funder, bounty_id, amount),
            final(self)@ == old(self)@.after_fund_bounty(caller, funder, bounty_id, amount),
            final(self)@.wf(),
    {
        proof {
            law_calls_preserve_well_formedness(
                old(self)@,
                Call::FundBounty { caller, funder, bounty_id, amount },
            );
        }
        let (bounty, over_the_cap) = match self.peek(bounty_id) {
            Some(entry) => (
                entry.bounty,
                entry.funding.check_contribution(amount, entry.bounty.max_amount),
            ),
            None => {
                return Err(Error::BountyNotFound);
            },
        };
        if !bounty.accepts_funding(self.registry.now) {
            return Err(Error::BountyNotInFundingMilestone);
        }
        if !self.authorizes(caller, funder) {
            return Err(Error::Unauthorized);
        }
        if let Some(error) = over_the_cap {
            return Err(error);
        }
        if !self.pay(caller, funder, amount) {
            return Err(Error::InsufficientBalance);
        }
        let mut entry = self.take(bounty_id);
        let cap_reached = entry.funding.contribute(funder, amount, bounty.max_amount).unwrap();
        entry.bounty.total_funding = bounty.total_funding + amount;
        entry.bounty.milestone = if cap_reached {
            BountyMilestone::WorkSubmission { started_at: self.registry.now }
        } else {
            bounty.effective_milestone(self.registry.now)
        };
        self.put(entry);
        if cap_reached {
            self.report(Event::BountyMaxFundingReached(bounty_id));
        }
        proof {
            assert(self@.bounties =~= old(self)@.after_fund_bounty(
                caller,
                funder,
                bounty_id,
                amount,
            ).bounties);
        }
        Ok(())
    }

    /// Returns to `funder` all it has outstanding in a bounty. The bounty
    /// must be canceled or its funding must have failed, and the caller
    /// must hold the funder's authority. Where the funding failed, the
    /// last funder to withdraw takes the cherry along: it goes back to the
    /// creator. A bounty that holds nothing any more is removed.
    pub fn withdraw_funding(
        &mut self,
        caller: Caller,
        funder: BountyActor,
        bounty_id: BountyId,
    ) -> (outcome: Result<Balance, Error>)
        requires
            old(self)@.wf(),
        ensures
            outcome == old(self)@.withdraw_funding_result(caller, funder, bounty_id),
            final(self)@ == old(self)@.after_withdraw_funding(caller, funder, bounty_id),
            final(self)@.wf(),
    {
        proof {
            law_calls_preserve_well_formedness(
                old(self)@,
                Call::WithdrawFunding { caller, funder, bounty_id },
            );
        }
        let (bounty, outstanding) = match self.peek(bounty_id) {
            Some(entry) => (entry.bounty, entry.funding.contribution_of(funder)),
            None => {
                return Err(Error::BountyNotFound);
            },
        };
        if !bounty.refunds_open(self.registry.now) {
            return Err(Error::InvalidMilestone);
        }
        if !self.authorizes(caller, funder) {
            return Err(Error::Unauthorized);
        }
        let amount = match outstanding {
            Some(amount) => amount,
            None => {
                return Err(Error::NoContributionFound);
            },
        };
        proof {
            let rows = old(self)@.bounties[bounty_id].contributions;
            lemma_row_unique(rows, funder, super::funding::row_index(rows, funder));
        }
        self.refund(caller, funder, amount);
        let mut entry = self.take(bounty_id);
        entry.funding.refund(funder);
        entry.bounty.total_funding = bounty.total_funding - amount;
        entry.bounty.milestone = bounty.effective_milestone(self.registry.now);
        if bounty.funding_failed(self.registry.now) && bounty.cherry_in_escrow
            && entry.funding.is_empty() {
            self.release_cherry(bounty.creator_account, bounty.cherry);
            entry.bounty.cherry_in_escrow = false;
        }
        self.settle(entry);
        proof {
            let expected = old(self)@.after_withdraw_funding(caller, funder, bounty_id);
            assert(self@.bounties =~= expected.bounties);
        }
        Ok(amount)
    }

    // Cherry

    /// Returns the cherry of a bounty to where its creator paid it from.
    /// The bounty must be canceled, or successful with nothing raised left
    /// in it; the caller must hold the authority of `creator`, who must be
    /// the bounty's creator; and the cherry must still be in escrow. A
    /// bounty that holds nothing any more is removed.
    pub fn withdraw_creator_cherry(
        &mut self,
        caller: Caller,
        creator: BountyActor,
        bounty_id: BountyId,
    ) -> (outcome: Result<Balance, Error>)
        requires
            old(self)@.wf(),
        ensures
            outcome == old(self)@.withdraw_creator_cherry_result(caller, creator, bounty_id),
            final(self)@ == old(self)@.after_withdraw_creator_cherry(caller, creator, bounty_id),
            final(self)@.wf(),
    {
        proof {
            law_calls_preserve_well_formedness(
                old(self)@,
                Call::WithdrawCreatorCherry { caller, creator, bounty_id },
            );
        }
        let bounty = match self.peek(bounty_id) {
            Some(entry) => entry.bounty,
            None => {
                return Err(Error::BountyNotFound);
            },
        };
        if !bounty.cherry_claimable(self.registry.now) {
            return Err(Error::InvalidMilestone);
        }
        if creator != bounty.creator || !self.authorizes(caller, creator) {
            return Err(Error::Unauthorized);
        }
        if !bounty.cherry_in_escrow {
            return Err(Error::NoCherryInEscrow);
        }
        self.release_cherry(bounty.creator_account, bounty.cherry);
        let mut entry = self.take(bounty_id);
        entry.bounty.cherry_in_escrow = false;
        entry.bounty.milestone = bounty.effective_milestone(self.registry.now);
        self.settle(entry);
        proof {
            let expected = old(self)@.after_withdraw_creator_cherry(caller, creator, bounty_id);
            assert(self@.bounties =~= expected.bounties);
        }
        Ok(bounty.cherry)
    }

    // Work entries

    /// Registers `member_id` as a worker on a bounty. The bounty must be in
    /// work submission and the caller must control the member. The entry
    /// gets the next id and holds no submission yet.
    pub fn announce_work_entry(
        &mut self,
        caller: Caller,
        member_id: MemberId,
        bounty_id: BountyId,
        staking_account_id: Option<AccountId>,
    ) -> (outcome: Result<WorkEntryId, Error>)
        requires
            old(self)@.wf(),
            old(self)@.work_entry_count < WorkEntryId::MAX,
        ensures
            outcome == old(self)@.announce_work_entry_result(caller, member_id, bounty_id),
            final(self)@ == old(self)@.after_announce_work_entry(
                caller,
                member_id,
                bounty_id,
                staking_account_id,
            ),
            final(self)@.wf(),
    {
        proof {
            law_calls_preserve_well_formedness(
                old(self)@,
                Call::AnnounceWorkEntry { caller, member_id, bounty_id, staking_account_id },
            );
        }
        let bounty = match self.peek(bounty_id) {
            Some(entry) => entry.bounty,
            None => {
                return Err(Error::BountyNotFound);
            },
        };
        if !bounty.accepts_work(self.registry.now) {
            return Err(Error::InvalidMilestone);
        }
        if !self.authorizes(caller, BountyActor::Member(member_id)) {
            return Err(Error::Unauthorized);
        }
        let entry_id = self.registry.work_entry_count + 1;
        let mut entry = self.take(bounty_id);
        entry.work.announce(entry_id, bounty_id, member_id, staking_account_id);
        entry.bounty.milestone = bounty.effective_milestone(self.registry.now);
        self.registry.work_entry_count = entry_id;
        self.put(entry);
        self.report(Event::WorkEntryAnnounced(bounty_id, entry_id, member_id, staking_account_id));
        proof {
            let expected = old(self)@.after_announce_work_entry(
                caller,
                member_id,
                bounty_id,
                staking_account_id,
            );
            assert(self@.bounties =~= expected.bounties);
        }
        Ok(entry_id)
    }

    fn check_entry(
        &self,
        caller: Caller,
        member_id: MemberId,
        bounty_id: BountyId,
        entry_id: WorkEntryId,
    ) -> (refusal: Option<Error>)
        requires
            self@.wf(),
            self@.bounties.contains_key(bounty_id),
        ensures
            refusal == self@.entry_refusal(caller, member_id, bounty_id, entry_id),
    {
        if !self.authorizes(caller, BountyActor::Member(member_id)) {
            return Some(Error::Unauthorized);
        }
        let owner = match self.peek(bounty_id) {
            Some(entry) => entry.work.owner_of(entry_id),
            None => None,
        };
        match owner {
            None => Some(Error::WorkEntryNotFound),
            Some(owner) => if owner != member_id {
                Some(Error::Unauthorized)
            } else {
                None
            },
        }
    }

    /// Removes a work entry of `member_id`, in whatever milestone the
    /// bounty is. The caller must control the member and the member must
    /// have announced the entry.
    pub fn withdraw_work_entry(
        &mut self,
        caller: Caller,
        member_id: MemberId,
        bounty_id: BountyId,
        entry_id: WorkEntryId,
    ) -> (outcome: Result<(), Error>)
        requires
            old(self)@.wf(),
        ensures
            outcome == old(self)@.withdraw_work_entry_result(
                caller,
                member_id,
                bounty_id,
                entry_id,
            ),
            final(self)@ == old(self)@.after_withdraw_work_entry(
                caller,
                member_id,
                bounty_id,
                entry_id,
            ),
            final(self)@.wf(),
    {
        proof {
            law_calls_preserve_well_formedness(
                old(self)@,
                Call::WithdrawWorkEntry { caller, member_id, bounty_id, entry_id },
            );
        }
        let bounty = match self.peek(bounty_id) {
            Some(entry) => entry.bounty,
            None => {
                return Err(Error::BountyNotFound);
            },
        };
        if let Some(error) = self.check_entry(caller, member_id, bounty_id, entry_id) {
            return Err(error);
        }
        let mut entry = self.take(bounty_id);
        entry.work.withdraw(entry_id);
        entry.bounty.milestone = bounty.effective_milestone(self.registry.now);
        self.put(entry);
        self.report(Event::WorkEntryWithdrawn(bounty_id, entry_id, member_id));
        proof {
            let expected = old(self)@.after_withdraw_work_entry(
                caller,
                member_id,
                bounty_id,
                entry_id,
            );
            assert(self@.bounties =~= expected.bounties);
        }
        Ok(())
    }

    /// Records `fingerprint` as the latest submission under a work entry of
    /// `member_id`, in place of any earlier one, and reports `work_data`.
    /// The bounty must be in work submission, the caller must control the
    /// member and the member must have announced the entry.
    pub fn record_work(
        &mut self,
        caller: Caller,
        member_id: MemberId,
        bounty_id: BountyId,
        entry_id: WorkEntryId,
        work_data: Vec<u8>,
        fingerprint: Vec<u8>,
    ) -> (outcome: Result<(), Error>)
        requires
            old(self)@.wf(),
        ensures
            outcome == old(self)@.submit_work_result(caller, member_id, bounty_id, entry_id),
            final(self)@ == old(self)@.after_record_work(
                caller,
                member_id,
                bounty_id,
                entry_id,
                work_data@,
                fingerprint@,
            ),
            final(self)@.wf(),
    {
        proof {
            law_recording_preserves_well_formedness(
                old(self)@,
                caller,
                member_id,
                bounty_id,
                entry_id,
                work_data@,
                fingerprint@,
            );
        }
        let bounty = match self.peek(bounty_id) {
            Some(entry) => entry.bounty,
            None => {
                return Err(Error::BountyNotFound);
            },
        };
        if !bounty.accepts_work(self.registry.now) {
            return Err(Error::InvalidMilestone);
        }
        if let Some(error) = self.check_entry(caller, member_id, bounty_id, entry_id) {
            return Err(error);
        }
        let mut entry = self.take(bounty_id);
        entry.work.record(entry_id, fingerprint);
        entry.bounty.milestone = bounty.effective_milestone(self.registry.now);
        self.put(entry);
        self.report(Event::WorkSubmitted(bounty_id, entry_id, member_id, work_data));
        proof {
            let expected = old(self)@.after_record_work(
                caller,
                member_id,
                bounty_id,
                entry_id,
                work_data@,
                fingerprint@,
            );
            assert(self@.bounties =~= expected.bounties);
        }
        Ok(())
    }

    /// Submits work under a work entry of `member_id`: the Blake2 digest of
    /// `work_data` becomes the entry's latest submission and the payload
    /// itself is reported, not kept. Conditions are those of
    /// [`Self::record_work`].
    pub fn submit_work(
        &mut self,
        caller: Caller,
        member_id: MemberId,
        bounty_id: BountyId,
        entry_id: WorkEntryId,
        work_data: Vec<u8>,
    ) -> (outcome: Result<(), Error>)
        requires
            old(self)@.wf(),
        ensures
            outcome == old(self)@.submit_work_result(caller, member_id, bounty_id, entry_id),
            final(self)@ == old(self)@.after_submit_work(
                caller,
                member_id,
                bounty_id,
                entry_id,
                work_data@,
            ),
            final(self)@.wf(),
    {
        let fingerprint = digest_of(&work_data);
        self.record_work(caller, member_id, bounty_id, entry_id, work_data, fingerprint)
    }
}

/// Moves the tick of `registry` on to `target_block`; it never moves back.
/// Nothing else happens as the ticks pass: a bounty whose period is over
/// stays as it is stored until a call touches it.
pub fn run_to_block<A: AuthorityCheck, L: EscrowLedger, P: BudgetPool>(
    registry: &mut BountyLifecycle<A, L, P>,
    target_block: BlockNumber,
)
    requires
        old(registry)@.wf(),
    ensures
        final(registry)@ == old(registry)@.after_run_to_block(target_block),
        final(registry)@.wf(),
{
    if registry.registry.now < target_block {
        registry.registry.now = target_block;
    }
    proof {
        law_calls_preserve_well_formedness(
            old(registry)@,
            Call::RunToBlock { target: target_block },
        );
    }
}

} // verus!
