//! The work entries of one bounty: workers announce an entry, submit work
//! under it and may withdraw it.

use super::types::{AccountId, BountyId, MemberId, WorkEntry, WorkEntryId, WorkEntryView};
use vstd::prelude::*;

verus! {

/// Some entry carries `id`.
pub open spec fn has_entry(entries: Seq<WorkEntryView>, id: WorkEntryId) -> bool {
    exists|i: int| 0 <= i < entries.len() && (#[trigger] entries[i]).id == id
}

/// The position of an entry that carries `id`, if there is one.
pub open spec fn entry_index(entries: Seq<WorkEntryView>, id: WorkEntryId) -> int {
    choose|i: int| 0 <= i < entries.len() && (#[trigger] entries[i]).id == id
}

/// The entry that carries `id`, if there is one.
pub open spec fn entry(entries: Seq<WorkEntryView>, id: WorkEntryId) -> Option<WorkEntryView> {
    if has_entry(entries, id) {
        Some(entries[entry_index(entries, id)])
    } else {
        None
    }
}

/// No two entries carry the same id.
pub open spec fn distinct_ids(entries: Seq<WorkEntryView>) -> bool {
    forall|i: int, j: int|
        0 <= i < j < entries.len() ==> (#[trigger] entries[i]).id != (#[trigger] entries[j]).id
}

/// A fresh entry, without a submission.
pub open spec fn announced(
    id: WorkEntryId,
    bounty_id: BountyId,
    member_id: MemberId,
    staking_account_id: Option<AccountId>,
) -> WorkEntryView {
    WorkEntryView { id, bounty_id, member_id, staking_account_id, last_submitted_work: None }
}

/// `entries` without the entry that carries `id`.
pub open spec fn without_entry(entries: Seq<WorkEntryView>, id: WorkEntryId) -> Seq<
    WorkEntryView,
> {
    if has_entry(entries, id) {
        entries.remove(entry_index(entries, id))
    } else {
        entries
    }
}

/// `entries` with `fingerprint` as the latest submission under `id`.
pub open spec fn with_submission(
    entries: Seq<WorkEntryView>,
    id: WorkEntryId,
    fingerprint: Seq<u8>,
) -> Seq<WorkEntryView> {
    if has_entry(entries, id) {
        let i = entry_index(entries, id);
        entries.update(
            i,
            WorkEntryView { last_submitted_work: Some(fingerprint), ..entries[i] },
        )
    } else {
        entries
    }
}

/// Where ids are distinct, the entry at a position is the one its id finds.
pub proof fn lemma_entry_unique(entries: Seq<WorkEntryView>, i: int)
    requires
        distinct_ids(entries),
        0 <= i < entries.len(),
    ensures
        has_entry(entries, entries[i].id),
        entry_index(entries, entries[i].id) == i,
        entry(entries, entries[i].id) == Some(entries[i]),
{
}

/// An entry that is announced under an unused id is found under that id,
/// and the other entries are found as before.
pub proof fn law_announced_entry_is_found(entries: Seq<WorkEntryView>, fresh: WorkEntryView)
    requires
        distinct_ids(entries),
        !has_entry(entries, fresh.id),
    ensures
        distinct_ids(entries.push(fresh)),
        entry(entries.push(fresh), fresh.id) == Some(fresh),
        forall|id: WorkEntryId|
            id != fresh.id ==> entry(entries.push(fresh), id) == entry(entries, id),
{
    let after = entries.push(fresh);
    lemma_entry_unique(after, entries.len() as int);
    assert forall|id: WorkEntryId| id != fresh.id implies entry(after, id) == entry(
        entries,
        id,
    ) by {
        if has_entry(entries, id) {
            lemma_entry_unique(after, entry_index(entries, id));
        } else if has_entry(after, id) {
            lemma_entry_unique(entries, entry_index(after, id));
        }
    }
}

/// Withdrawing an entry keeps ids distinct, removes that id and leaves the
/// other entries alone.
pub proof fn law_withdrawn_entry_is_gone(entries: Seq<WorkEntryView>, id: WorkEntryId)
    requires
        distinct_ids(entries),
    ensures
        distinct_ids(without_entry(entries, id)),
        !has_entry(without_entry(entries, id), id),
        forall|other: WorkEntryId|
            other != id ==> entry(without_entry(entries, id), other) == entry(entries, other),
        forall|i: int|
            0 <= i < without_entry(entries, id).len() ==> has_entry(
                entries,
                (#[trigger] without_entry(entries, id)[i]).id,
            ) && entry(entries, without_entry(entries, id)[i].id) == Some(
                without_entry(entries, id)[i],
            ),
{
    let after = without_entry(entries, id);
    if has_entry(entries, id) {
        let i = entry_index(entries, id);
        // Entry `a` after the withdrawal is entry `a` or `a + 1` before it.
        assert forall|a: int| 0 <= a < after.len() implies #[trigger] after[a] == entries[if a
            < i {
            a
        } else {
            a + 1
        }] by {}
        assert(distinct_ids(after));
        assert forall|other: WorkEntryId| other != id implies entry(after, other) == entry(
            entries,
            other,
        ) by {
            if has_entry(entries, other) {
                let j = entry_index(entries, other);
                lemma_entry_unique(after, if j < i { j } else { j - 1 });
            } else if has_entry(after, other) {
                let a = entry_index(after, other);
                lemma_entry_unique(entries, if a < i { a } else { a + 1 });
            }
        }
        assert forall|a: int| 0 <= a < after.len() implies has_entry(
            entries,
            (#[trigger] after[a]).id,
        ) && entry(entries, after[a].id) == Some(after[a]) by {
            lemma_entry_unique(entries, if a < i { a } else { a + 1 });
        }
    } else {
        assert forall|a: int| 0 <= a < after.len() implies has_entry(
            entries,
            (#[trigger] after[a]).id,
        ) && entry(entries, after[a].id) == Some(after[a]) by {
            lemma_entry_unique(entries, a);
        }
    }
}

/// A submission keeps ids distinct, rewrites the fingerprint of its entry
/// and leaves the other entries alone.
pub proof fn law_submission_replaces_fingerprint(
    entries: Seq<WorkEntryView>,
    id: WorkEntryId,
    fingerprint: Seq<u8>,
)
    requires
        distinct_ids(entries),
        has_entry(entries, id),
    ensures
        distinct_ids(with_submission(entries, id, fingerprint)),
        with_submission(entries, id, fingerprint).len() == entries.len(),
        entry(with_submission(entries, id, fingerprint), id) == Some(
            WorkEntryView { last_submitted_work: Some(fingerprint), ..entry(entries, id).unwrap() },
        ),
        forall|other: WorkEntryId|
            other != id ==> entry(with_submission(entries, id, fingerprint), other) == entry(
                entries,
                other,
            ),
        forall|i: int|
            0 <= i < entries.len() ==> (#[trigger] with_submission(entries, id, fingerprint)[i]).id
                == entries[i].id && with_submission(entries, id, fingerprint)[i].bounty_id
                == entries[i].bounty_id,
{
    let after = with_submission(entries, id, fingerprint);
    let i = entry_index(entries, id);
    assert(distinct_ids(after));
    lemma_entry_unique(after, i);
    assert forall|other: WorkEntryId| other != id implies entry(after, other) == entry(
        entries,
        other,
    ) by {
        if has_entry(entries, other) {
            lemma_entry_unique(after, entry_index(entries, other));
        } else if has_entry(after, other) {
            lemma_entry_unique(entries, entry_index(after, other));
        }
    }
}

/// A copy of `bytes`.
pub(crate) fn copy_bytes(bytes: &Vec<u8>) -> (copy: Vec<u8>)
    ensures
        copy@ == bytes@,
{
    bytes.clone()
}

/// A copy of `entry`.
fn copy_entry(entry: &WorkEntry) -> (copy: WorkEntry)
    ensures
        copy@ == entry@,
{
    WorkEntry {
        id: entry.id,
        bounty_id: entry.bounty_id,
        member_id: entry.member_id,
        staking_account_id: entry.staking_account_id,
        last_submitted_work: match &entry.last_submitted_work {
            Some(digest) => Some(copy_bytes(digest)),
            None => None,
        },
    }
}

/// The work entries of one bounty.
pub struct WorkEntryRegistry {
    entries: Vec<WorkEntry>,
}

impl View for WorkEntryRegistry {
    type V = Seq<WorkEntryView>;

    closed spec fn view(&self) -> Seq<WorkEntryView> {
        Seq::new(self.entries@.len(), |i: int| self.entries@[i]@)
    }
}

impl WorkEntryRegistry {
    /// A registry without entries.
    pub fn new() -> (registry: Self)
        ensures
            registry@ == Seq::<WorkEntryView>::empty(),
    {
        let registry = WorkEntryRegistry { entries: Vec::new() };
        registry
    }

    fn position(&self, id: WorkEntryId) -> (found: Option<usize>)
        requires
            distinct_ids(self@),
        ensures
            match found {
                Some(i) => i < self.entries@.len() && self@[i as int].id == id && has_entry(
                    self@,
                    id,
                ) && entry_index(self@, id) == i,
                None => !has_entry(self@, id),
            },
    {
        let mut k: usize = 0;
        while k < self.entries.len()
            invariant
                k <= self.entries.len(),
                self@.len() == self.entries@.len(),
                distinct_ids(self@),
                forall|i: int| 0 <= i < k ==> (#[trigger] self@[i]).id != id,
            decreases self.entries.len() - k,
        {
            if self.entries[k].id == id {
                return Some(k);
            }
            k = k + 1;
        }
        None
    }

    /// Whether an entry carries `id`.
    pub fn contains(&self, id: WorkEntryId) -> (found: bool)
        requires
            distinct_ids(self@),
        ensures
            found == has_entry(self@, id),
    {
        self.position(id).is_some()
    }

    /// The member that announced the entry `id`, if there is such an entry.
    pub fn owner_of(&self, id: WorkEntryId) -> (owner: Option<MemberId>)
        requires
            distinct_ids(self@),
        ensures
            owner == match entry(self@, id) {
                Some(found) => Some(found.member_id),
                None => None,
            },
    {
        match self.position(id) {
            Some(i) => Some(self.entries[i].member_id),
            None => None,
        }
    }

    /// A copy of the entry `id`, if there is such an entry.
    pub fn get(&self, id: WorkEntryId) -> (found: Option<WorkEntry>)
        requires
            distinct_ids(self@),
        ensures
            match found {
                Some(copy) => entry(self@, id) == Some(copy@),
                None => entry(self@, id) is None,
            },
    {
        match self.position(id) {
            Some(i) => Some(copy_entry(&self.entries[i])),
            None => None,
        }
    }

    /// Registers a fresh entry, without a submission.
    pub fn announce(
        &mut self,
        id: WorkEntryId,
        bounty_id: BountyId,
        member_id: MemberId,
        staking_account_id: Option<AccountId>,
    )
        ensures
            final(self)@ == old(self)@.push(
                announced(id, bounty_id, member_id, staking_account_id),
            ),
    {
        self.entries.push(
            WorkEntry { id, bounty_id, member_id, staking_account_id, last_submitted_work: None },
        );
    }

    /// Removes the entry `id` and says whether there was one.
    pub fn withdraw(&mut self, id: WorkEntryId) -> (removed: bool)
        requires
            distinct_ids(old(self)@),
        ensures
            removed == has_entry(old(self)@, id),
            final(self)@ == without_entry(old(self)@, id),
    {
        match self.position(id) {
            Some(i) => {
                self.entries.remove(i);
                true
            },
            None => false,
        }
    }

    /// Stores `fingerprint` as the latest submission under `id` and says
    /// whether there is such an entry.
    pub fn record(&mut self, id: WorkEntryId, fingerprint: Vec<u8>) -> (recorded: bool)
        requires
            distinct_ids(old(self)@),
        ensures
            recorded == has_entry(old(self)@, id),
            final(self)@ == with_submission(old(self)@, id, fingerprint@),
    {
        match self.position(id) {
            Some(i) => {
                let before = &self.entries[i];
                let after = WorkEntry {
                    id: before.id,
                    bounty_id: before.bounty_id,
                    member_id: before.member_id,
                    staking_account_id: before.staking_account_id,
                    last_submitted_work: Some(fingerprint),
                };
                self.entries.set(i, after);
                true
            },
            None => false,
        }
    }
}

} // verus!
