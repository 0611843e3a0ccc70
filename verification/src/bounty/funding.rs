//! The funding ledger of one bounty: who contributed how much, under a cap.

use super::types::{Balance, BountyActor, Error, FundingContribution};
use vstd::prelude::*;

verus! {

/// The amount raised by `rows`: the sum of their amounts.
pub open spec fn raised(rows: Seq<FundingContribution>) -> nat
    decreases rows.len(),
{
    if rows.len() == 0 {
        0
    } else {
        (raised(rows.drop_last()) + rows.last().amount) as nat
    }
}

/// Some row belongs to `funder`.
pub open spec fn has_row(rows: Seq<FundingContribution>, funder: BountyActor) -> bool {
    exists|i: int| 0 <= i < rows.len() && (#[trigger] rows[i]).funder == funder
}

/// The position of a row of `funder`, if there is one.
pub open spec fn row_index(rows: Seq<FundingContribution>, funder: BountyActor) -> int {
    choose|i: int| 0 <= i < rows.len() && (#[trigger] rows[i]).funder == funder
}

/// What `funder` has outstanding in `rows`, if anything.
pub open spec fn contribution(rows: Seq<FundingContribution>, funder: BountyActor) -> Option<
    Balance,
> {
    if has_row(rows, funder) {
        Some(rows[row_index(rows, funder)].amount)
    } else {
        None
    }
}

/// No funder has two rows and no row is empty.
pub open spec fn well_formed(rows: Seq<FundingContribution>) -> bool {
    &&& forall|i: int, j: int|
        0 <= i < j < rows.len() ==> (#[trigger] rows[i]).funder != (#[trigger] rows[j]).funder
    &&& forall|i: int| 0 <= i < rows.len() ==> (#[trigger] rows[i]).amount > 0
}

/// `rows` after `funder` added `amount`: the funder's row grows, or a new
/// row is appended.
pub open spec fn with_contribution(
    rows: Seq<FundingContribution>,
    funder: BountyActor,
    amount: Balance,
) -> Seq<FundingContribution> {
    if has_row(rows, funder) {
        let i = row_index(rows, funder);
        rows.update(i, FundingContribution { funder, amount: (rows[i].amount + amount) as Balance })
    } else {
        rows.push(FundingContribution { funder, amount })
    }
}

/// `rows` without the row of `funder`.
pub open spec fn without_funder(rows: Seq<FundingContribution>, funder: BountyActor) -> Seq<
    FundingContribution,
> {
    if has_row(rows, funder) {
        rows.remove(row_index(rows, funder))
    } else {
        rows
    }
}

/// Why a contribution of `amount` to `rows` under `cap` is refused, if it is.
pub open spec fn contribution_error(
    rows: Seq<FundingContribution>,
    cap: Balance,
    amount: Balance,
) -> Option<Error> {
    if amount == 0 {
        Some(Error::ZeroAmount)
    } else if raised(rows) + amount > cap {
        Some(Error::FundingExceedsCap)
    } else {
        None
    }
}

/// Appending a row adds its amount.
pub proof fn lemma_raised_push(rows: Seq<FundingContribution>, row: FundingContribution)
    ensures
        raised(rows.push(row)) == raised(rows) + row.amount,
{
    assert(rows.push(row).drop_last() =~= rows);
}

/// Rewriting a row exchanges its amount.
pub proof fn lemma_raised_update(rows: Seq<FundingContribution>, i: int, row: FundingContribution)
    requires
        0 <= i < rows.len(),
    ensures
        raised(rows.update(i, row)) == raised(rows) - rows[i].amount + row.amount,
    decreases rows.len(),
{
    if i == rows.len() - 1 {
        assert(rows.update(i, row).drop_last() =~= rows.drop_last());
    } else {
        lemma_raised_update(rows.drop_last(), i, row);
        assert(rows.update(i, row).drop_last() =~= rows.drop_last().update(i, row));
    }
}

/// Deleting a row takes its amount away.
pub proof fn lemma_raised_remove(rows: Seq<FundingContribution>, i: int)
    requires
        0 <= i < rows.len(),
    ensures
        raised(rows.remove(i)) == raised(rows) - rows[i].amount,
    decreases rows.len(),
{
    if i < rows.len() - 1 {
        lemma_raised_remove(rows.drop_last(), i);
        assert(rows.remove(i).drop_last() =~= rows.drop_last().remove(i));
    }
}

/// A prefix raises no more than the whole, and one more row adds its amount.
pub proof fn lemma_raised_prefix(rows: Seq<FundingContribution>, k: int)
    requires
        0 <= k <= rows.len(),
    ensures
        raised(rows.take(k)) <= raised(rows),
        k < rows.len() ==> raised(rows.take(k + 1)) == raised(rows.take(k)) + rows[k].amount,
    decreases rows.len() - k,
{
    if k < rows.len() {
        assert(rows.take(k + 1).drop_last() =~= rows.take(k));
        lemma_raised_prefix(rows, k + 1);
    } else {
        assert(rows.take(k) =~= rows);
    }
}

/// Nothing is raised exactly when there is no row, as long as no row is
/// empty.
pub proof fn law_nothing_raised_means_no_rows(rows: Seq<FundingContribution>)
    requires
        well_formed(rows),
    ensures
        raised(rows) == 0 <==> rows.len() == 0,
{
}

/// In a well-formed ledger the row of a funder is the only one, and its
/// amount is part of what was raised.
pub proof fn lemma_row_unique(rows: Seq<FundingContribution>, funder: BountyActor, i: int)
    requires
        well_formed(rows),
        0 <= i < rows.len(),
        rows[i].funder == funder,
    ensures
        has_row(rows, funder),
        row_index(rows, funder) == i,
        contribution(rows, funder) == Some(rows[i].amount),
        rows[i].amount <= raised(rows),
{
    lemma_raised_remove(rows, i);
}

/// A contribution keeps the ledger well formed and adds its amount.
pub proof fn lemma_with_contribution(
    rows: Seq<FundingContribution>,
    funder: BountyActor,
    amount: Balance,
)
    requires
        well_formed(rows),
        amount > 0,
        raised(rows) + amount <= Balance::MAX,
    ensures
        well_formed(with_contribution(rows, funder, amount)),
        raised(with_contribution(rows, funder, amount)) == raised(rows) + amount,
        contribution(with_contribution(rows, funder, amount), funder) == Some(
            (match contribution(rows, funder) {
                Some(before) => before + amount,
                None => amount as int,
            }) as Balance,
        ),
        forall|other: BountyActor|
            other != funder ==> contribution(with_contribution(rows, funder, amount), other)
                == contribution(rows, other),
{
    let after = with_contribution(rows, funder, amount);
    if has_row(rows, funder) {
        let i = row_index(rows, funder);
        lemma_raised_update(rows, i, after[i]);
        lemma_row_unique(after, funder, i);
        assert forall|other: BountyActor| other != funder implies contribution(after, other)
            == contribution(rows, other) by {
            if has_row(rows, other) {
                lemma_row_unique(after, other, row_index(rows, other));
            } else if has_row(after, other) {
                lemma_row_unique(after, other, row_index(after, other));
            }
        }
    } else {
        lemma_raised_push(rows, FundingContribution { funder, amount });
        lemma_row_unique(after, funder, rows.len() as int);
        assert forall|other: BountyActor| other != funder implies contribution(after, other)
            == contribution(rows, other) by {
            if has_row(rows, other) {
                lemma_row_unique(after, other, row_index(rows, other));
            } else if has_row(after, other) {
                lemma_row_unique(after, other, row_index(after, other));
            }
        }
    }
}

/// A refund keeps the ledger well formed, takes the funder's amount away and
/// leaves the other funders alone.
pub proof fn lemma_without_funder(rows: Seq<FundingContribution>, funder: BountyActor)
    requires
        well_formed(rows),
    ensures
        well_formed(without_funder(rows, funder)),
        !has_row(without_funder(rows, funder), funder),
        raised(without_funder(rows, funder)) == raised(rows) - (match contribution(rows, funder) {
            Some(amount) => amount,
            None => 0,
        }),
        forall|other: BountyActor|
            other != funder ==> contribution(without_funder(rows, funder), other) == contribution(
                rows,
                other,
            ),
{
    let after = without_funder(rows, funder);
    if has_row(rows, funder) {
        let i = row_index(rows, funder);
        lemma_raised_remove(rows, i);
        // Row `a` of the ledger after the refund is row `a` or `a + 1` of
        // the ledger before it.
        assert forall|a: int| 0 <= a < after.len() implies #[trigger] after[a] == rows[if a < i {
            a
        } else {
            a + 1
        }] by {}
        assert(well_formed(after));
        assert forall|other: BountyActor| other != funder implies contribution(after, other)
            == contribution(rows, other) by {
            if has_row(rows, other) {
                let j = row_index(rows, other);
                lemma_row_unique(after, other, if j < i { j } else { j - 1 });
            } else if has_row(after, other) {
                let a = row_index(after, other);
                lemma_row_unique(rows, other, if a < i { a } else { a + 1 });
            }
        }
    }
}

/// The funding ledger of one bounty.
pub struct FundingLedger {
    rows: Vec<FundingContribution>,
}

impl View for FundingLedger {
    type V = Seq<FundingContribution>;

    closed spec fn view(&self) -> Seq<FundingContribution> {
        self.rows@
    }
}

impl FundingLedger {
    /// The rows are well formed and what they raise is a balance.
    pub open spec fn wf(&self) -> bool {
        &&& well_formed(self@)
        &&& raised(self@) <= Balance::MAX
    }

    /// An empty ledger.
    pub fn new() -> (ledger: Self)
        ensures
            ledger@ == Seq::<FundingContribution>::empty(),
            ledger.wf(),
    {
        FundingLedger { rows: Vec::new() }
    }

    /// The aggregate raised amount.
    pub fn total(&self) -> (total: Balance)
        requires
            self.wf(),
        ensures
            total == raised(self@),
    {
        let mut total: Balance = 0;
        let mut k: usize = 0;
        while k < self.rows.len()
            invariant
                k <= self.rows.len(),
                total == raised(self@.take(k as int)),
                raised(self@) <= Balance::MAX,
                self@ == self.rows@,
            decreases self.rows.len() - k,
        {
            proof {
                lemma_raised_prefix(self@, k as int);
                lemma_raised_prefix(self@, k as int + 1);
            }
            total = total + self.rows[k].amount;
            k = k + 1;
        }
        proof {
            assert(self@.take(k as int) =~= self@);
        }
        total
    }

    /// Whether nobody has anything outstanding.
    pub fn is_empty(&self) -> (empty: bool)
        ensures
            empty == (self@.len() == 0),
    {
        self.rows.len() == 0
    }

    fn position(&self, funder: BountyActor) -> (found: Option<usize>)
        requires
            self.wf(),
        ensures
            match found {
                Some(i) => i < self@.len() && self@[i as int].funder == funder && has_row(
                    self@,
                    funder,
                ) && row_index(self@, funder) == i,
                None => !has_row(self@, funder),
            },
    {
        let mut k: usize = 0;
        while k < self.rows.len()
            invariant
                k <= self.rows.len(),
                self@ == self.rows@,
                self.wf(),
                forall|i: int| 0 <= i < k ==> (#[trigger] self@[i]).funder != funder,
            decreases self.rows.len() - k,
        {
            if self.rows[k].funder == funder {
                return Some(k);
            }
            k = k + 1;
        }
        None
    }

    /// What `funder` has outstanding, if anything.
    pub fn contribution_of(&self, funder: BountyActor) -> (amount: Option<Balance>)
        requires
            self.wf(),
        ensures
            amount == contribution(self@, funder),
    {
        match self.position(funder) {
            Some(i) => Some(self.rows[i].amount),
            None => None,
        }
    }

    /// Why a contribution of `amount` would be refused under `cap`, if it
    /// would.
    pub fn check_contribution(&self, amount: Balance, cap: Balance) -> (refusal: Option<Error>)
        requires
            self.wf(),
        ensures
            refusal == contribution_error(self@, cap, amount),
    {
        if amount == 0 {
            return Some(Error::ZeroAmount);
        }
        let total = self.total();
        if total > cap || amount > cap - total {
            Some(Error::FundingExceedsCap)
        } else {
            None
        }
    }

    /// Adds `amount` to what `funder` has outstanding and reports whether
    /// `cap` is reached. An empty contribution and one that would exceed
    /// the cap are refused.
    pub fn contribute(
        &mut self,
        funder: BountyActor,
        amount: Balance,
        cap: Balance,
    ) -> (outcome: Result<bool, Error>)
        requires
            old(self).wf(),
        ensures
            final(self).wf(),
            match outcome {
                Ok(cap_reached) => {
                    &&& contribution_error(old(self)@, cap, amount) is None
                    &&& final(self)@ == with_contribution(old(self)@, funder, amount)
                    &&& raised(final(self)@) == raised(old(self)@) + amount
                    &&& cap_reached == (raised(final(self)@) == cap)
                },
                Err(error) => {
                    &&& contribution_error(old(self)@, cap, amount) == Some(error)
                    &&& final(self)@ == old(self)@
                },
            },
    {
        if let Some(error) = self.check_contribution(amount, cap) {
            return Err(error);
        }
        let total = self.total();
        proof {
            lemma_with_contribution(self@, funder, amount);
        }
        match self.position(funder) {
            Some(i) => {
                let before = self.rows[i].amount;
                proof {
                    lemma_row_unique(self@, funder, i as int);
                }
                self.rows.set(i, FundingContribution { funder, amount: before + amount });
            },
            None => {
                self.rows.push(FundingContribution { funder, amount });
            },
        }
        Ok(total + amount == cap)
    }

    /// Takes out what `funder` has outstanding and returns it.
    pub fn refund(&mut self, funder: BountyActor) -> (amount: Option<Balance>)
        requires
            old(self).wf(),
        ensures
            final(self).wf(),
            amount == contribution(old(self)@, funder),
            final(self)@ == without_funder(old(self)@, funder),
    {
        proof {
            lemma_without_funder(self@, funder);
        }
        match self.position(funder) {
            Some(i) => {
                let row = self.rows.remove(i);
                Some(row.amount)
            },
            None => None,
        }
    }
}

} // verus!
