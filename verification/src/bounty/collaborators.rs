//! The services the bounty registry leans on: who may act, where balances
//! live and the council's budget. Each is an interface with an exact
//! contract, and each comes with a plain in-memory implementation.

use super::types::{AccountId, Balance, BountyActor, Caller, Error, MemberId};
use std::collections::HashMap;
use vstd::prelude::*;

verus! {

broadcast use vstd::std_specs::hash::group_hash_axioms;

/// What an authority knows: which credentials are privileged and which
/// account controls each member.
pub struct AuthorityView {
    pub privileged: Set<Caller>,
    pub controllers: Map<MemberId, AccountId>,
}

impl AuthorityView {
    /// `caller` may act as `actor`: the council needs a privileged
    /// credential, a member the signature of its controlling account.
    pub open spec fn authorizes(self, caller: Caller, actor: BountyActor) -> bool {
        match actor {
            BountyActor::Council => self.privileged.contains(caller),
            BountyActor::Member(member_id) => self.controls(caller, member_id),
        }
    }

    /// `caller` is the signature of the account that controls `member_id`.
    pub open spec fn controls(self, caller: Caller, member_id: MemberId) -> bool {
        match caller {
            Caller::Signed(account) => self.controllers.contains_key(member_id)
                && self.controllers[member_id] == account,
            Caller::Root => false,
        }
    }
}

/// Resolves credentials: the privileged-authority check and the identity
/// resolver for members.
pub trait AuthorityCheck {
    /// What this authority knows.
    spec fn rules(&self) -> AuthorityView;

    /// Whether `caller` holds the privileged authority.
    fn is_privileged(&self, caller: &Caller) -> (ok: bool)
        ensures
            ok == self.rules().privileged.contains(*caller),
    ;

    /// Whether `caller` controls `member_id`.
    fn controls(&self, caller: &Caller, member_id: MemberId) -> (ok: bool)
        ensures
            ok == self.rules().controls(*caller, member_id),
    ;
}

/// The balance of `account` in `balances`; an unknown account holds nothing.
pub open spec fn balance_in(balances: Map<AccountId, Balance>, account: AccountId) -> Balance {
    if balances.contains_key(account) {
        balances[account]
    } else {
        0
    }
}

/// `balances` after `amount` left `account`.
pub open spec fn debited(
    balances: Map<AccountId, Balance>,
    account: AccountId,
    amount: Balance,
) -> Map<AccountId, Balance>
    recommends
        amount <= balance_in(balances, account),
{
    balances.insert(account, (balance_in(balances, account) - amount) as Balance)
}

/// The sum of two amounts, capped at the largest representable balance.
pub open spec fn saturating_sum(a: Balance, b: Balance) -> Balance {
    if a + b > Balance::MAX {
        Balance::MAX
    } else {
        (a + b) as Balance
    }
}

/// `balances` after `amount` reached `account`.
pub open spec fn credited(
    balances: Map<AccountId, Balance>,
    account: AccountId,
    amount: Balance,
) -> Map<AccountId, Balance> {
    balances.insert(account, saturating_sum(balance_in(balances, account), amount))
}

/// Moves value between spendable balances and escrow.
pub trait EscrowLedger {
    /// The spendable balance of every account.
    spec fn balances(&self) -> Map<AccountId, Balance>;

    /// Takes `amount` out of the spendable balance of `account` into escrow,
    /// or fails and changes nothing where the account cannot afford it.
    fn reserve(&mut self, account: AccountId, amount: Balance) -> (outcome: Result<(), Error>)
        ensures
            outcome == if amount <= balance_in(old(self).balances(), account) {
                Ok::<(), Error>(())
            } else {
                Err(Error::InsufficientBalance)
            },
            final(self).balances() == if outcome is Ok {
                debited(old(self).balances(), account, amount)
            } else {
                old(self).balances()
            },
    ;

    /// Returns `amount` from escrow to the spendable balance of `account`,
    /// which stops growing at the largest representable balance.
    fn release(&mut self, account: AccountId, amount: Balance)
        ensures
            final(self).balances() == credited(old(self).balances(), account, amount),
    ;
}

/// The council's budget.
pub trait BudgetPool {
    /// The budget as it stands.
    spec fn budget(&self) -> Balance;

    /// Reads the budget.
    fn get_budget(&self) -> (budget: Balance)
        ensures
            budget == self.budget(),
    ;

    /// Overwrites the budget.
    fn set_budget(&mut self, budget: Balance)
        ensures
            final(self).budget() == budget,
    ;
}

/// An authority that keeps the controlling account of each member in memory
/// and takes [`Caller::Root`] alone as privileged.
pub struct MemberDirectory {
    controllers: HashMap<MemberId, AccountId>,
}

impl MemberDirectory {
    /// A directory without members.
    pub fn new() -> (directory: Self)
        ensures
            directory.rules() == (AuthorityView {
                privileged: Set::<Caller>::empty().insert(Caller::Root),
                controllers: Map::<MemberId, AccountId>::empty(),
            }),
    {
        MemberDirectory { controllers: HashMap::new() }
    }

    /// Makes `account` the controller of `member_id`, in place of any
    /// earlier one.
    pub fn register(&mut self, member_id: MemberId, account: AccountId)
        ensures
            final(self).rules() == (AuthorityView {
                controllers: old(self).rules().controllers.insert(member_id, account),
                ..old(self).rules()
            }),
    {
        self.controllers.insert(member_id, account);
    }
}

impl AuthorityCheck for MemberDirectory {
    closed spec fn rules(&self) -> AuthorityView {
        AuthorityView {
            privileged: Set::<Caller>::empty().insert(Caller::Root),
            controllers: self.controllers@,
        }
    }

    fn is_privileged(&self, caller: &Caller) -> (ok: bool) {
        match caller {
            Caller::Root => true,
            Caller::Signed(_) => false,
        }
    }

    fn controls(&self, caller: &Caller, member_id: MemberId) -> (ok: bool) {
        match caller {
            Caller::Root => false,
            Caller::Signed(account) => match self.controllers.get(&member_id) {
                Some(controller) => *controller == *account,
                None => false,
            },
        }
    }
}

/// An escrow ledger that keeps spendable balances in memory.
pub struct Accounts {
    balances: HashMap<AccountId, Balance>,
}

impl Accounts {
    /// A ledger in which nobody holds anything.
    pub fn new() -> (accounts: Self)
        ensures
            accounts.balances() == Map::<AccountId, Balance>::empty(),
    {
        Accounts { balances: HashMap::new() }
    }

    /// Sets the spendable balance of `account`.
    pub fn set_balance(&mut self, account: AccountId, balance: Balance)
        ensures
            final(self).balances() == old(self).balances().insert(account, balance),
    {
        self.balances.insert(account, balance);
    }

    /// The spendable balance of `account`; an unknown account holds
    /// nothing.
    pub fn free_balance(&self, account: AccountId) -> (balance: Balance)
        ensures
            balance == balance_in(self.balances(), account),
    {
        match self.balances.get(&account) {
            Some(balance) => *balance,
            None => 0,
        }
    }
}

impl EscrowLedger for Accounts {
    closed spec fn balances(&self) -> Map<AccountId, Balance> {
        self.balances@
    }

    fn reserve(&mut self, account: AccountId, amount: Balance) -> (outcome: Result<(), Error>) {
        let balance = self.free_balance(account);
        if amount <= balance {
            self.balances.insert(account, balance - amount);
            Ok(())
        } else {
            Err(Error::InsufficientBalance)
        }
    }

    fn release(&mut self, account: AccountId, amount: Balance) {
        let balance = self.free_balance(account);
        let sum = if amount > Balance::MAX - balance {
            Balance::MAX
        } else {
            balance + amount
        };
        self.balances.insert(account, sum);
    }
}

/// A council budget kept in memory.
pub struct CouncilBudget {
    budget: Balance,
}

impl CouncilBudget {
    /// A pool that holds `budget`.
    pub fn new(budget: Balance) -> (pool: Self)
        ensures
            pool.budget() == budget,
    {
        CouncilBudget { budget }
    }
}

impl BudgetPool for CouncilBudget {
    closed spec fn budget(&self) -> Balance {
        self.budget
    }

    fn get_budget(&self) -> (budget: Balance) {
        self.budget
    }

    fn set_budget(&mut self, budget: Balance) {
        self.budget = budget;
    }
}

} // verus!
