use crate::error::{status_of, AppErrorView};
use crate::handlers::{
    create_outcome, delete_failure, empty_name_text, get_outcome, insert_outcome, merged,
    not_found_text, supplies_empty_name, update_outcome,
};
use crate::models::{valid_item, Item, ItemChangeView, ItemView, UpdateItemView};
use crate::store::{
    deleted, find, has_id, index_of, inserted, is_slot, lemma_deleted_well_formed,
    lemma_index_unique, lemma_inserted_well_formed, lemma_slot_exists, lemma_slot_unique,
    lemma_updated_well_formed, rewritten, slot, updated, well_formed,
};
use vstd::prelude::*;

verus! {

/// Create, then get. A request with a name, once built into an item and put
/// into a table that does not hold its identifier yet, is found under that
/// identifier exactly as it was built: with the requested name and
/// description, and with `created_at` equal to `updated_at`.
pub proof fn law_create_then_get(
    rows: Seq<ItemView>,
    name: Seq<char>,
    description: Option<Seq<char>>,
    id: u128,
    now: i64,
)
    requires
        well_formed(rows),
        !has_id(rows, id),
        name.len() > 0,
    ensures
        create_outcome(name, description, id, now) matches Ok(item) && item.id == id && item.name
            == name && item.description == description && item.created_at == item.updated_at
            && get_outcome(id, Ok(find(inserted(rows, item), id))) == Ok::<
            ItemView,
            AppErrorView,
        >(item),
{
    let item = ItemView { id, name, description, created_at: now, updated_at: now };
    lemma_slot_exists(rows, now);
    lemma_inserted_well_formed(rows, item);
    let next = inserted(rows, item);
    let k = slot(rows, now);
    assert(next[k] == item);
    lemma_index_unique(next, id, k);
}

/// Update merges. For a stored item and any update request that does not
/// supply an empty name, the row after the update has the request's name
/// where one was supplied and the stored name otherwise, likewise for the
/// description; `id` and `created_at` are untouched and `updated_at` is the
/// time of the update. So an update that supplies only a name leaves the
/// description as it was, and with a clock that moved on since the last
/// write, `updated_at` strictly advances.
pub proof fn law_update_merges(rows: Seq<ItemView>, id: u128, input: UpdateItemView, now: i64)
    requires
        well_formed(rows),
        has_id(rows, id),
        find(rows, id).unwrap().updated_at < now,
    ensures
        !supplies_empty_name(input) ==> (update_outcome(id, input, Ok(find(rows, id))) matches Ok(
            change,
        ) && find(updated(rows, change, now), id) matches Some(after) && {
            let current = find(rows, id).unwrap();
            &&& after.id == id
            &&& after.name == merged(id, current, input).name
            &&& after.description == merged(id, current, input).description
            &&& input.name matches Some(name) ==> after.name == name
            &&& input.name is None ==> after.name == current.name
            &&& input.description matches Some(description) ==> after.description == description
            &&& input.description is None ==> after.description == current.description
            &&& after.created_at == current.created_at
            &&& after.updated_at == now
            &&& after.updated_at > current.updated_at
        }),
{
    let current = find(rows, id).unwrap();
    let change = merged(id, current, input);
    let k = index_of(rows, id);
    assert(0 <= k < rows.len() && rows[k].id == id);
    let next = updated(rows, change, now);
    lemma_updated_well_formed(rows, change, now);
    assert(next[k].id == id);
    lemma_index_unique(next, id, k);
}

/// An update never stores an empty name. For a stored item, a request that
/// supplies an empty name is refused as invalid input with status 400 and
/// yields nothing to write; every change that an update does yield carries
/// a name.
pub proof fn law_update_refuses_empty_name(rows: Seq<ItemView>, id: u128, input: UpdateItemView)
    requires
        has_id(rows, id),
        find(rows, id).unwrap().name.len() > 0,
    ensures
        supplies_empty_name(input) ==> update_outcome(id, input, Ok(find(rows, id))) == Err::<
            ItemChangeView,
            AppErrorView,
        >(AppErrorView::InvalidInput(empty_name_text())),
        supplies_empty_name(input) ==> status_of(AppErrorView::InvalidInput(empty_name_text()))
            == 400,
        update_outcome(id, input, Ok(find(rows, id))) matches Ok(change) ==> change.name.len() > 0,
{
}

/// A failed insert is a storage failure with status 500, whatever its
/// cause; a successful one hands the stored item on.
pub proof fn law_failed_insert_is_internal(inserted: Result<Item, String>)
    ensures
        inserted is Ok <==> insert_outcome(inserted) is Ok,
        insert_outcome(inserted) matches Err(e) ==> status_of(e) == 500,
{
}

/// A created item is valid: it has a name and its timestamps are equal.
pub proof fn law_created_is_valid(
    name: Seq<char>,
    description: Option<Seq<char>>,
    id: u128,
    now: i64,
)
    ensures
        create_outcome(name, description, id, now) matches Ok(item) ==> valid_item(item),
{
}

/// A valid item is still valid after every update that the service lets
/// through, given a time that is not before the item's last write.
pub proof fn law_update_keeps_valid(current: ItemView, input: UpdateItemView, now: i64)
    requires
        valid_item(current),
        current.updated_at <= now,
    ensures
        update_outcome(current.id, input, Ok(Some(current))) matches Ok(change) ==> valid_item(
            rewritten(current, change, now),
        ),
{
}

/// An update of an identifier that the table does not hold writes nothing
/// and is a not-found failure.
pub proof fn law_update_absent(rows: Seq<ItemView>, id: u128, input: UpdateItemView)
    requires
        !has_id(rows, id),
    ensures
        update_outcome(id, input, Ok(find(rows, id))) == Err::<ItemChangeView, AppErrorView>(
            AppErrorView::NotFound(not_found_text(id)),
        ),
{
}

/// Deleting what is not there. For an identifier that the table does not
/// hold, the table stays as it is, the delete reports that nothing was
/// removed, and the outcome is a not-found failure with status 404, never
/// 500.
pub proof fn law_delete_absent(rows: Seq<ItemView>, id: u128)
    requires
        !has_id(rows, id),
    ensures
        deleted(rows, id) == rows,
        delete_failure(id, Ok(has_id(rows, id))) == Some(
            AppErrorView::NotFound(not_found_text(id)),
        ),
        status_of(delete_failure(id, Ok(has_id(rows, id))).unwrap()) == 404,
{
}

/// After a delete the identifier is gone: a lookup finds nothing, so a get
/// and a second delete are both not-found failures.
pub proof fn law_deleted_is_gone(rows: Seq<ItemView>, id: u128)
    requires
        well_formed(rows),
    ensures
        !has_id(deleted(rows, id), id),
        find(deleted(rows, id), id) is None,
        get_outcome(id, Ok(find(deleted(rows, id), id))) == Err::<ItemView, AppErrorView>(
            AppErrorView::NotFound(not_found_text(id)),
        ),
        delete_failure(id, Ok(has_id(deleted(rows, id), id))) == Some(
            AppErrorView::NotFound(not_found_text(id)),
        ),
{
    let next = deleted(rows, id);
    if has_id(rows, id) {
        let k = index_of(rows, id);
        assert forall|i: int| 0 <= i < next.len() implies (#[trigger] next[i]).id != id by {
            let a = if i < k {
                i
            } else {
                i + 1
            };
            assert(next[i] == rows[a]);
            if a < k {
                assert(rows[a].id != rows[k].id);
            } else {
                assert(rows[k].id != rows[a].id);
            }
        }
    }
}

/// No operation touches another row. For an identifier other than the one
/// that an insert, an update or a delete is about, a lookup finds after the
/// operation what it found before.
pub proof fn law_other_rows_untouched(
    rows: Seq<ItemView>,
    item: ItemView,
    change: ItemChangeView,
    now: i64,
    id: u128,
    other: u128,
)
    requires
        well_formed(rows),
        !has_id(rows, item.id),
        other != item.id,
        other != change.id,
        other != id,
    ensures
        find(inserted(rows, item), other) == find(rows, other),
        find(updated(rows, change, now), other) == find(rows, other),
        find(deleted(rows, id), other) == find(rows, other),
{
    lemma_slot_exists(rows, item.created_at);
    lemma_inserted_well_formed(rows, item);
    lemma_updated_well_formed(rows, change, now);
    lemma_deleted_well_formed(rows, id);
    let a = inserted(rows, item);
    let b = updated(rows, change, now);
    let c = deleted(rows, id);
    let s = slot(rows, item.created_at);
    if has_id(rows, other) {
        let i = index_of(rows, other);
        assert(0 <= i < rows.len() && rows[i].id == other);
        let ia = if i < s { i } else { i + 1 };
        assert(a[ia] == rows[i]);
        lemma_index_unique(a, other, ia);
        assert(b[i] == rows[i]) by {
            if has_id(rows, change.id) {
                assert(rows[index_of(rows, change.id)].id == change.id);
            }
        }
        lemma_index_unique(b, other, i);
        if has_id(rows, id) {
            let k = index_of(rows, id);
            assert(rows[k].id == id);
            let ic = if i < k { i } else { i - 1 };
            assert(c[ic] == rows[i]);
            lemma_index_unique(c, other, ic);
        }
    } else {
        assert forall|i: int| 0 <= i < a.len() implies (#[trigger] a[i]).id != other by {
            if i != s {
                let j = if i < s { i } else { i - 1 };
                assert(a[i] == rows[j]);
            }
        }
        assert forall|i: int| 0 <= i < b.len() implies (#[trigger] b[i]).id != other by {
            assert(b[i].id == rows[i].id);
        }
        assert forall|i: int| 0 <= i < c.len() implies (#[trigger] c[i]).id != other by {
            if has_id(rows, id) {
                let k = index_of(rows, id);
                let j = if i < k { i } else { i + 1 };
                assert(c[i] == rows[j]);
            }
        }
    }
}

/// Listing order. Of two rows of a table, the one created later stands
/// first in the listing.
pub proof fn law_newer_listed_first(rows: Seq<ItemView>, i: int, j: int)
    requires
        well_formed(rows),
        0 <= i < rows.len(),
        0 <= j < rows.len(),
        rows[i].created_at > rows[j].created_at,
    ensures
        i < j,
{
    if j < i {
        assert(rows[j].created_at >= rows[i].created_at);
    }
}

/// Three items created at times `t1 < t2 < t3` and put into an empty table
/// in that order are listed as third, second, first.
pub proof fn law_three_listed_newest_first(a: ItemView, b: ItemView, c: ItemView)
    requires
        a.created_at < b.created_at < c.created_at,
    ensures
        inserted(inserted(inserted(Seq::<ItemView>::empty(), a), b), c) == seq![c, b, a],
{
    let r0 = Seq::<ItemView>::empty();
    assert(is_slot(r0, a.created_at, 0));
    lemma_slot_unique(r0, a.created_at, 0);
    let r1 = inserted(r0, a);
    assert(r1 =~= seq![a]);
    assert(is_slot(r1, b.created_at, 0));
    lemma_slot_unique(r1, b.created_at, 0);
    let r2 = inserted(r1, b);
    assert(r2 =~= seq![b, a]);
    assert(is_slot(r2, c.created_at, 0));
    lemma_slot_unique(r2, c.created_at, 0);
    assert(inserted(r2, c) =~= seq![c, b, a]);
}

} // verus!
