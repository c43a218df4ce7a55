use crate::models::{Item, ItemChange, ItemChangeView, ItemView};
use vstd::prelude::*;
use vstd::string::StringExecFns;

verus! {

/// Whether some row carries the identifier.
pub open spec fn has_id(rows: Seq<ItemView>, id: u128) -> bool {
    exists|i: int| 0 <= i < rows.len() && (#[trigger] rows[i]).id == id
}

/// No identifier occurs in two rows.
pub open spec fn distinct_ids(rows: Seq<ItemView>) -> bool {
    forall|i: int, j: int|
        0 <= i < j < rows.len() ==> (#[trigger] rows[i]).id != (#[trigger] rows[j]).id
}

/// The rows stand by creation time, latest first.
pub open spec fn newest_first(rows: Seq<ItemView>) -> bool {
    forall|i: int, j: int|
        0 <= i < j < rows.len() ==> (#[trigger] rows[i]).created_at >= (
        #[trigger] rows[j]).created_at
}

/// What holds of the rows of every table.
pub open spec fn well_formed(rows: Seq<ItemView>) -> bool {
    distinct_ids(rows) && newest_first(rows)
}

/// The index of a row that carries the identifier.
pub open spec fn index_of(rows: Seq<ItemView>, id: u128) -> int {
    choose|i: int| 0 <= i < rows.len() && (#[trigger] rows[i]).id == id
}

/// The row that carries the identifier, if there is one.
pub open spec fn find(rows: Seq<ItemView>, id: u128) -> Option<ItemView> {
    if has_id(rows, id) {
        Some(rows[index_of(rows, id)])
    } else {
        None
    }
}

/// Whether `k` parts the rows created after `t` from those created at `t` or
/// before it.
pub open spec fn is_slot(rows: Seq<ItemView>, t: i64, k: int) -> bool {
    &&& 0 <= k <= rows.len()
    &&& forall|i: int| 0 <= i < k ==> (#[trigger] rows[i]).created_at > t
    &&& forall|i: int| k <= i < rows.len() ==> (#[trigger] rows[i]).created_at <= t
}

/// The index at which a row created at `t` is put.
pub open spec fn slot(rows: Seq<ItemView>, t: i64) -> int {
    choose|k: int| is_slot(rows, t, k)
}

/// The rows after a new item was put in.
pub open spec fn inserted(rows: Seq<ItemView>, item: ItemView) -> Seq<ItemView> {
    rows.insert(slot(rows, item.created_at), item)
}

/// A row after an update at time `now`: name and description are those of
/// the change, `updated_at` is `now`, the rest stays.
pub open spec fn rewritten(row: ItemView, change: ItemChangeView, now: i64) -> ItemView {
    ItemView {
        id: row.id,
        name: change.name,
        description: change.description,
        created_at: row.created_at,
        updated_at: now,
    }
}

/// The rows after an update: the row of the change's identifier is
/// rewritten; where there is none, nothing changes.
pub open spec fn updated(rows: Seq<ItemView>, change: ItemChangeView, now: i64) -> Seq<ItemView> {
    if has_id(rows, change.id) {
        let i = index_of(rows, change.id);
        rows.update(i, rewritten(rows[i], change, now))
    } else {
        rows
    }
}

/// The rows after a delete: the row of the identifier is gone; where there
/// is none, nothing changes.
pub open spec fn deleted(rows: Seq<ItemView>, id: u128) -> Seq<ItemView> {
    if has_id(rows, id) {
        rows.remove(index_of(rows, id))
    } else {
        rows
    }
}

/// Among rows with distinct identifiers, the row that carries `id` is the
/// one that `index_of` names.
pub proof fn lemma_index_unique(rows: Seq<ItemView>, id: u128, i: int)
    requires
        distinct_ids(rows),
        0 <= i < rows.len(),
        rows[i].id == id,
    ensures
        has_id(rows, id),
        index_of(rows, id) == i,
        find(rows, id) == Some(rows[i]),
{
    let j = index_of(rows, id);
    assert(0 <= j < rows.len() && rows[j].id == id);
    if j < i {
        assert(rows[j].id != rows[i].id);
    } else if i < j {
        assert(rows[i].id != rows[j].id);
    }
}

/// Only one index parts the rows at `t`.
pub proof fn lemma_slot_unique(rows: Seq<ItemView>, t: i64, k: int)
    requires
        is_slot(rows, t, k),
    ensures
        slot(rows, t) == k,
{
    let s = slot(rows, t);
    assert(is_slot(rows, t, s));
    if s < k {
        assert(rows[s].created_at > t);
    } else if k < s {
        assert(rows[k].created_at > t);
    }
}

/// Ordered rows have a slot for every time.
pub proof fn lemma_slot_exists(rows: Seq<ItemView>, t: i64)
    requires
        newest_first(rows),
    ensures
        is_slot(rows, t, slot(rows, t)),
    decreases rows.len(),
{
    if rows.len() == 0 {
        assert(is_slot(rows, t, 0));
    } else if rows[0].created_at <= t {
        assert(is_slot(rows, t, 0));
    } else {
        let rest = rows.subrange(1, rows.len() as int);
        assert(newest_first(rest)) by {
            assert forall|i: int, j: int| 0 <= i < j < rest.len() implies (#[trigger] rest[i]).created_at
                >= (#[trigger] rest[j]).created_at by {
                assert(rest[i] == rows[i + 1] && rest[j] == rows[j + 1]);
            }
        }
        lemma_slot_exists(rest, t);
        let k = slot(rest, t);
        assert(is_slot(rows, t, k + 1)) by {
            assert forall|i: int| 0 <= i < k + 1 implies (#[trigger] rows[i]).created_at > t by {
                if i > 0 {
                    assert(rest[i - 1] == rows[i]);
                }
            }
            assert forall|i: int| k + 1 <= i < rows.len() implies (#[trigger] rows[i]).created_at
                <= t by {
                assert(rest[i - 1] == rows[i]);
            }
        }
    }
}

/// The cause that an insert gives for an identifier that is already taken.
pub open spec fn duplicate_text() -> Seq<char> {
    "duplicate key value violates unique constraint"@
}

/// An in-memory table of items that keeps the rules of the storage: one row
/// per identifier, rows listed by creation time with the latest first.
/// Among rows created at the same time, the one put in last is listed first;
/// the time of an update is the one that the caller hands in.
pub struct ItemTable {
    rows: Vec<Item>,
}

impl View for ItemTable {
    type V = Seq<ItemView>;

    closed spec fn view(&self) -> Seq<ItemView> {
        self.rows@.map_values(|item: Item| item@)
    }
}

impl ItemTable {
    /// The table's invariant.
    pub open spec fn wf(&self) -> bool {
        well_formed(self@)
    }

    /// An empty table.
    pub fn new() -> (table: ItemTable)
        ensures
            table@ == Seq::<ItemView>::empty(),
            table.wf(),
    {
        let table = ItemTable { rows: Vec::new() };
        assert(table@ =~= Seq::<ItemView>::empty());
        table
    }

    /// The number of rows.
    pub fn len(&self) -> (n: usize)
        ensures
            n == self@.len(),
    {
        self.rows.len()
    }

    fn position(&self, id: u128) -> (r: Option<usize>)
        requires
            self.wf(),
        ensures
            match r {
                Some(i) => i < self@.len() && self@[i as int] == self.rows[i as int]@ && has_id(
                    self@,
                    id,
                ) && index_of(self@, id) == i,
                None => !has_id(self@, id),
            },
    {
        let mut i: usize = 0;
        while i < self.rows.len()
            invariant
                self.wf(),
                i <= self.rows.len(),
                self.rows.len() == self@.len(),
                forall|j: int| 0 <= j < i ==> (#[trigger] self@[j]).id != id,
            decreases self.rows.len() - i,
        {
            if self.rows[i].id == id {
                proof {
                    lemma_index_unique(self@, id, i as int);
                }
                return Some(i);
            }
            i += 1;
        }
        None
    }

    /// All rows, latest creation first.
    pub fn list_all(&self) -> (items: Vec<Item>)
        requires
            self.wf(),
        ensures
            items@.map_values(|item: Item| item@) == self@,
            newest_first(items@.map_values(|item: Item| item@)),
    {
        let mut items: Vec<Item> = Vec::new();
        let mut i: usize = 0;
        while i < self.rows.len()
            invariant
                i <= self.rows.len(),
                items@ == self.rows@.subrange(0, i as int),
            decreases self.rows.len() - i,
        {
            items.push(self.rows[i].clone());
            proof {
                assert(items@ =~= self.rows@.subrange(0, i + 1));
            }
            i += 1;
        }
        proof {
            assert(items@ =~= self.rows@);
        }
        items
    }

    /// The row of the identifier, or `None` where there is none.
    pub fn find_by_id(&self, id: u128) -> (found: Option<Item>)
        requires
            self.wf(),
        ensures
            found_view(found) == find(self@, id),
    {
        match self.position(id) {
            Some(i) => Some(self.rows[i].clone()),
            None => None,
        }
    }

    /// Puts a new item in and hands it back unchanged. An item whose
    /// identifier is already in the table is refused and nothing changes.
    pub fn insert(&mut self, item: Item) -> (r: Result<Item, String>)
        requires
            old(self).wf(),
        ensures
            final(self).wf(),
            has_id(old(self)@, item.id) ==> final(self)@ == old(self)@ && (r matches Err(cause)
                && cause@ == duplicate_text()),
            !has_id(old(self)@, item.id) ==> final(self)@ == inserted(old(self)@, item@) && r
                == Ok::<Item, String>(item),
    {
        if self.position(item.id).is_some() {
            return Err(String::from_str("duplicate key value violates unique constraint"));
        }
        let mut k: usize = 0;
        while k < self.rows.len() && self.rows[k].created_at > item.created_at
            invariant
                k <= self.rows.len(),
                self.rows.len() == self@.len(),
                forall|j: int| 0 <= j < k ==> (#[trigger] self@[j]).created_at > item.created_at,
            decreases self.rows.len() - k,
        {
            k += 1;
        }
        let copy = item.clone();
        proof {
            let rows = self@;
            assert(is_slot(rows, item.created_at, k as int)) by {
                assert forall|j: int| k <= j < rows.len() implies (#[trigger] rows[j]).created_at
                    <= item.created_at by {
                    assert(rows[k as int].created_at <= item.created_at);
                    if k < j {
                        assert(rows[k as int].created_at >= rows[j].created_at);
                    }
                }
            }
            lemma_slot_unique(rows, item.created_at, k as int);
            lemma_inserted_well_formed(rows, item@);
        }
        self.rows.insert(k, item);
        proof {
            assert(self@ =~= inserted(old(self)@, copy@));
        }
        Ok(copy)
    }

    /// Writes the change to the row of its identifier, with `now` as the
    /// time of the update, and hands the new row back. Where no row carries
    /// the identifier, nothing changes and `None` comes back.
    pub fn update_fields(&mut self, change: ItemChange, now: i64) -> (r: Option<Item>)
        requires
            old(self).wf(),
        ensures
            final(self).wf(),
            final(self)@ == updated(old(self)@, change@, now),
            found_view(r) == find(final(self)@, change.id),
            r is Some == has_id(old(self)@, change.id),
    {
        match self.position(change.id) {
            Some(i) => {
                proof {
                    lemma_updated_well_formed(self@, change@, now);
                }
                let row = self.rows.remove(i);
                let next = Item {
                    id: row.id,
                    name: change.name,
                    description: change.description,
                    created_at: row.created_at,
                    updated_at: now,
                };
                let copy = next.clone();
                self.rows.insert(i, next);
                proof {
                    assert(self@ =~= updated(old(self)@, change@, now));
                    lemma_index_unique(self@, change.id, i as int);
                }
                Some(copy)
            },
            None => None,
        }
    }

    /// Removes the row of the identifier and says whether there was one.
    pub fn delete_by_id(&mut self, id: u128) -> (removed: bool)
        requires
            old(self).wf(),
        ensures
            final(self).wf(),
            final(self)@ == deleted(old(self)@, id),
            removed == has_id(old(self)@, id),
    {
        match self.position(id) {
            Some(i) => {
                proof {
                    lemma_deleted_well_formed(self@, id);
                }
                let _ = self.rows.remove(i);
                proof {
                    assert(self@ =~= deleted(old(self)@, id));
                }
                true
            },
            None => false,
        }
    }
}

/// What a lookup handed back, over models.
pub open spec fn found_view(found: Option<Item>) -> Option<ItemView> {
    match found {
        Some(item) => Some(item@),
        None => None,
    }
}

/// Putting in an item whose identifier is new keeps the rows well formed.
pub proof fn lemma_inserted_well_formed(rows: Seq<ItemView>, item: ItemView)
    requires
        well_formed(rows),
        !has_id(rows, item.id),
    ensures
        well_formed(inserted(rows, item)),
{
    lemma_slot_exists(rows, item.created_at);
    let k = slot(rows, item.created_at);
    let next = inserted(rows, item);
    assert forall|i: int, j: int| 0 <= i < j < next.len() implies (#[trigger] next[i]).id != (
    #[trigger] next[j]).id && next[i].created_at >= next[j].created_at by {
        let a = if i < k { i } else { i - 1 };
        let b = if j < k { j } else { j - 1 };
        if i != k {
            assert(next[i] == rows[a]);
        }
        if j != k {
            assert(next[j] == rows[b]);
        }
        if i != k && j != k {
            assert(rows[a].id != rows[b].id);
            assert(rows[a].created_at >= rows[b].created_at);
        }
    }
}

/// An update keeps the rows well formed.
pub proof fn lemma_updated_well_formed(rows: Seq<ItemView>, change: ItemChangeView, now: i64)
    requires
        well_formed(rows),
    ensures
        well_formed(updated(rows, change, now)),
{
    let next = updated(rows, change, now);
    if has_id(rows, change.id) {
        let k = index_of(rows, change.id);
        assert forall|i: int, j: int| 0 <= i < j < next.len() implies (#[trigger] next[i]).id != (
        #[trigger] next[j]).id && next[i].created_at >= next[j].created_at by {
            assert(next[i].id == rows[i].id && next[i].created_at == rows[i].created_at);
            assert(next[j].id == rows[j].id && next[j].created_at == rows[j].created_at);
        }
    }
}

/// A delete keeps the rows well formed.
pub proof fn lemma_deleted_well_formed(rows: Seq<ItemView>, id: u128)
    requires
        well_formed(rows),
    ensures
        well_formed(deleted(rows, id)),
{
    let next = deleted(rows, id);
    if has_id(rows, id) {
        let k = index_of(rows, id);
        assert forall|i: int, j: int| 0 <= i < j < next.len() implies (#[trigger] next[i]).id != (
        #[trigger] next[j]).id && next[i].created_at >= next[j].created_at by {
            let a = if i < k { i } else { i + 1 };
            let b = if j < k { j } else { j + 1 };
            assert(next[i] == rows[a] && next[j] == rows[b]);
        }
    }
}

} // verus!
