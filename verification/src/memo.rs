//! Memo: a short text that an account with a balance publishes about
//! itself.

use std::collections::HashMap;
use vstd::prelude::*;

verus! {

broadcast use vstd::std_specs::hash::group_hash_axioms;

/// Identifier of an account.
pub type AccountId = u64;

/// An amount of balance.
pub type Balance = u64;

/// The text of a memo.
pub type MemoText = Vec<u8>;

/// The length limit of a new module.
pub const DEFAULT_MAX_MEMO_LENGTH: u32 = 4096;

/// Why a memo was rejected.
#[derive(Clone, Copy, Debug, PartialEq, Eq, Structural)]
pub enum Error {
    /// The account holds nothing.
    AccountMustHaveABalance,
    /// The memo is longer than a memo may be.
    MemoTooLong,
}

impl Error {
    /// The reason in words.
    pub fn message(&self) -> (message: &'static str)
        ensures
            message@ == match *self {
                Error::AccountMustHaveABalance => "account must have a balance"@,
                Error::MemoTooLong => "memo too long"@,
            },
    {
        match self {
            Error::AccountMustHaveABalance => "account must have a balance",
            Error::MemoTooLong => "memo too long",
        }
    }
}

/// A length as the limit sees it: counted in 32 bits, so a length of
/// 2^32 or more starts again from 0.
pub open spec fn counted_length(length: nat) -> int {
    length as int % 0x1_0000_0000
}

/// The state of the memo module.
pub struct MemoState {
    /// The memo of each account that has one.
    pub memo: Map<AccountId, Seq<u8>>,
    /// The longest memo that is taken.
    pub max_memo_length: u32,
}

impl MemoState {
    /// Why a memo is refused, if it is: the account must hold a balance
    /// and the memo must not be longer than the limit.
    pub open spec fn update_memo_refusal(self, total_balance: Balance, memo: Seq<u8>) -> Option<
        Error,
    > {
        if total_balance == 0 {
            Some(Error::AccountMustHaveABalance)
        } else if counted_length(memo.len()) > self.max_memo_length {
            Some(Error::MemoTooLong)
        } else {
            None
        }
    }

    /// The state an update leaves: the memo stands for the sender, in
    /// place of any earlier one.
    pub open spec fn after_update_memo(
        self,
        sender: AccountId,
        total_balance: Balance,
        memo: Seq<u8>,
    ) -> MemoState {
        if self.update_memo_refusal(total_balance, memo) is Some {
            self
        } else {
            MemoState { memo: self.memo.insert(sender, memo), ..self }
        }
    }
}

/// The memo module.
pub struct Module {
    memo: HashMap<AccountId, MemoText>,
    max_memo_length: u32,
}

impl View for Module {
    type V = MemoState;

    closed spec fn view(&self) -> MemoState {
        MemoState {
            memo: self.memo@.map_values(|text: MemoText| text@),
            max_memo_length: self.max_memo_length,
        }
    }
}

impl Module {
    /// A module without memos that takes memos of up to
    /// [`DEFAULT_MAX_MEMO_LENGTH`] bytes.
    pub fn new() -> (module: Self)
        ensures
            module@ == (MemoState { memo: Map::empty(), max_memo_length: DEFAULT_MAX_MEMO_LENGTH }),
    {
        let module = Module { memo: HashMap::new(), max_memo_length: DEFAULT_MAX_MEMO_LENGTH };
        assert(module@.memo =~= Map::empty());
        module
    }

    /// The longest memo that is taken.
    pub fn max_memo_length(&self) -> (length: u32)
        ensures
            length == self@.max_memo_length,
    {
        self.max_memo_length
    }

    /// The memo of `account`; the empty text where it has none.
    pub fn memo(&self, account: AccountId) -> (text: MemoText)
        ensures
            text@ == if self@.memo.contains_key(account) {
                self@.memo[account]
            } else {
                Seq::<u8>::empty()
            },
    {
        match self.memo.get(&account) {
            Some(text) => text.clone(),
            None => Vec::new(),
        }
    }

    /// Publishes `memo` for `sender`, whose balance is `total_balance`.
    /// The account must hold a balance and the memo must not be longer
    /// than the limit.
    pub fn update_memo(
        &mut self,
        sender: AccountId,
        total_balance: Balance,
        memo: MemoText,
    ) -> (outcome: Result<(), Error>)
        ensures
            outcome == match old(self)@.update_memo_refusal(total_balance, memo@) {
                Some(error) => Err::<(), Error>(error),
                None => Ok(()),
            },
            final(self)@ == old(self)@.after_update_memo(sender, total_balance, memo@),
    {
        if total_balance == 0 {
            return Err(Error::AccountMustHaveABalance);
        }
        let length: u64 = memo.len() as u64;
        let counted: u32 = #[verifier::truncate]
        (length as u32);
        proof {
            assert(counted == length % 0x1_0000_0000) by (bit_vector)
                requires
                    counted == length as u32,
            ;
        }
        if counted > self.max_memo_length {
            return Err(Error::MemoTooLong);
        }
        let ghost text = memo@;
        self.memo.insert(sender, memo);
        proof {
            assert(self@.memo =~= old(self)@.memo.insert(sender, text));
        }
        Ok(())
    }
}

} // verus!
