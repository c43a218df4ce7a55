use crate::clock::now_micros;
use crate::error::{masked_text, AppError, AppErrorView};
use crate::ids::{fresh_id, hyphenated, id_text, is_random_id, parse_id, parsed_id};
use crate::models::{
    text_of, CreateItem, DeleteConfirmation, Item, ItemChange, ItemChangeView, ItemView,
    UpdateItem, UpdateItemView,
};
use vstd::prelude::*;
use vstd::string::StringExecFns;

verus! {

/// The message of the failure for an identifier that matches no item.
pub open spec fn not_found_text(id: u128) -> Seq<char> {
    "Item not found: "@ + hyphenated(id)
}

/// The message of the failure for a text that is no identifier.
pub open spec fn invalid_id_text() -> Seq<char> {
    "Invalid item id"@
}

/// The message of the failure for a request that would store an empty name.
pub open spec fn empty_name_text() -> Seq<char> {
    "Item name must not be empty"@
}

/// The message of a delete confirmation.
pub open spec fn deleted_text() -> Seq<char> {
    "Item deleted successfully"@
}

/// What the storage answered to a lookup, over models.
pub open spec fn lookup_view(found: Result<Option<Item>, String>) -> Result<
    Option<ItemView>,
    Seq<char>,
> {
    match found {
        Ok(Some(item)) => Ok(Some(item@)),
        Ok(None) => Ok(None),
        Err(cause) => Err(cause@),
    }
}

/// The outcome of an operation that yields an item, over models.
pub open spec fn item_outcome_view(r: Result<Item, AppError>) -> Result<ItemView, AppErrorView> {
    match r {
        Ok(item) => Ok(item@),
        Err(e) => Err(e@),
    }
}

/// The outcome of the first step of an update, over models.
pub open spec fn change_outcome_view(r: Result<ItemChange, AppError>) -> Result<
    ItemChangeView,
    AppErrorView,
> {
    match r {
        Ok(change) => Ok(change@),
        Err(e) => Err(e@),
    }
}

/// The outcome of reading an identifier from text: the identifier that the
/// parser found, or a validation failure.
pub open spec fn id_outcome(parsed: Option<u128>) -> Result<u128, AppErrorView> {
    match parsed {
        Some(id) => Ok(id),
        None => Err(AppErrorView::InvalidInput(invalid_id_text())),
    }
}

/// The item that a create request becomes, given the identifier and the time
/// drawn for it: both timestamps are that time. A request with an empty name
/// is refused.
pub open spec fn create_outcome(name: Seq<char>, description: Option<Seq<char>>, id: u128, now: i64)
    -> Result<ItemView, AppErrorView> {
    if name.len() == 0 {
        Err(AppErrorView::InvalidInput(empty_name_text()))
    } else {
        Ok(ItemView { id, name, description, created_at: now, updated_at: now })
    }
}

/// The outcome of a lookup by identifier: the stored item, a not-found
/// failure where no row matched, or the storage failure.
pub open spec fn get_outcome(id: u128, found: Result<Option<ItemView>, Seq<char>>) -> Result<
    ItemView,
    AppErrorView,
> {
    match found {
        Ok(Some(item)) => Ok(item),
        Ok(None) => Err(AppErrorView::NotFound(not_found_text(id))),
        Err(cause) => Err(AppErrorView::Database(cause)),
    }
}

/// The field values that an update writes: each supplied field replaces the
/// stored one, each absent field keeps it.
pub open spec fn merged(id: u128, current: ItemView, input: UpdateItemView) -> ItemChangeView {
    ItemChangeView {
        id,
        name: match input.name {
            Some(name) => name,
            None => current.name,
        },
        description: match input.description {
            Some(description) => description,
            None => current.description,
        },
    }
}

/// Whether a request supplies a name and that name is empty.
pub open spec fn supplies_empty_name(input: UpdateItemView) -> bool {
    input.name matches Some(name) && name.len() == 0
}

/// The outcome of the first step of an update. The lookup comes first: its
/// failure is the outcome. For a stored item, a request that supplies an
/// empty name is refused; every other request yields the merged values.
pub open spec fn update_outcome(
    id: u128,
    input: UpdateItemView,
    found: Result<Option<ItemView>, Seq<char>>,
) -> Result<ItemChangeView, AppErrorView> {
    match get_outcome(id, found) {
        Ok(current) => if supplies_empty_name(input) {
            Err(AppErrorView::InvalidInput(empty_name_text()))
        } else {
            Ok(merged(id, current, input))
        },
        Err(e) => Err(e),
    }
}

/// The outcome of a create once the storage answered the insert: the item
/// as stored, or the storage failure.
pub open spec fn insert_outcome(inserted: Result<Item, String>) -> Result<ItemView, AppErrorView> {
    match inserted {
        Ok(item) => Ok(item@),
        Err(cause) => Err(AppErrorView::Database(cause@)),
    }
}

/// The failure that a delete ends in, if any: none where a row was removed,
/// not-found where none was, the storage failure otherwise.
pub open spec fn delete_failure(id: u128, removed: Result<bool, Seq<char>>) -> Option<
    AppErrorView,
> {
    match removed {
        Ok(true) => None,
        Ok(false) => Some(AppErrorView::NotFound(not_found_text(id))),
        Err(cause) => Some(AppErrorView::Database(cause)),
    }
}

fn not_found(id: u128) -> (e: AppError)
    ensures
        e@ == AppErrorView::NotFound(not_found_text(id)),
{
    let text = id_text(id);
    AppError::NotFound(String::from_str("Item not found: ").concat(text.as_str()))
}

/// Decides what reading an identifier from text yields, given the parser's
/// answer.
pub fn checked_id(parsed: Option<u128>) -> (r: Result<u128, AppError>)
    ensures
        match r {
            Ok(id) => id_outcome(parsed) == Ok::<u128, AppErrorView>(id),
            Err(e) => id_outcome(parsed) == Err::<u128, AppErrorView>(e@),
        },
{
    match parsed {
        Some(id) => Ok(id),
        None => Err(AppError::InvalidInput(String::from_str("Invalid item id"))),
    }
}

/// Reads the identifier of an item from the text of a request path.
pub fn parse_item_id(text: &str) -> (r: Result<u128, AppError>)
    ensures
        match r {
            Ok(id) => id_outcome(parsed_id(text@)) == Ok::<u128, AppErrorView>(id),
            Err(e) => id_outcome(parsed_id(text@)) == Err::<u128, AppErrorView>(e@),
        },
{
    checked_id(parse_id(text))
}

/// List: the rows come back as the storage gave them, newest first. A
/// storage failure becomes an internal failure with the masked message.
pub fn list_items(rows: Result<Vec<Item>, String>) -> (r: Result<Vec<Item>, AppError>)
    ensures
        match rows {
            Ok(items) => r == Ok::<Vec<Item>, AppError>(items),
            Err(_) => r matches Err(e) && e@ == AppErrorView::Internal(masked_text()),
        },
{
    match rows {
        Ok(items) => Ok(items),
        Err(_) => Err(AppError::Internal(String::from_str("Internal Server Error"))),
    }
}

/// Builds the item of a create request from the identifier and the time
/// drawn for it.
pub fn new_item(input: CreateItem, id: u128, now: i64) -> (r: Result<Item, AppError>)
    ensures
        item_outcome_view(r) == create_outcome(input.name@, text_of(input.description), id, now),
{
    if input.name.as_str().is_empty() {
        Err(AppError::InvalidInput(String::from_str("Item name must not be empty")))
    } else {
        Ok(
            Item {
                id,
                name: input.name,
                description: input.description,
                created_at: now,
                updated_at: now,
            },
        )
    }
}

/// Create: draws a fresh identifier and reads the clock once, then builds
/// the item to insert. Which identifier and which time is not known before
/// the call; whatever they are, the result is the one [`create_outcome`]
/// gives for them.
pub fn create_item(input: CreateItem) -> (r: Result<Item, AppError>)
    ensures
        input.name@.len() == 0 ==> item_outcome_view(r) == Err::<ItemView, AppErrorView>(
            AppErrorView::InvalidInput(empty_name_text()),
        ),
        input.name@.len() > 0 ==> r is Ok,
        r matches Ok(item) ==> is_random_id(item.id) && item_outcome_view(r) == create_outcome(
            input.name@,
            text_of(input.description),
            item.id,
            item.created_at,
        ),
{
    let id = fresh_id();
    let now = now_micros();
    new_item(input, id, now)
}

/// Get: the stored item, or why there is none.
pub fn get_item(id: u128, found: Result<Option<Item>, String>) -> (r: Result<Item, AppError>)
    ensures
        item_outcome_view(r) == get_outcome(id, lookup_view(found)),
{
    match found {
        Ok(Some(item)) => Ok(item),
        Ok(None) => Err(not_found(id)),
        Err(cause) => Err(AppError::Database(cause)),
    }
}

/// Create, second step: given the storage's answer to the insert, the
/// created item. A failed insert is a storage failure that keeps the cause.
pub fn finish_create(inserted: Result<Item, String>) -> (r: Result<Item, AppError>)
    ensures
        match inserted {
            Ok(item) => r == Ok::<Item, AppError>(item),
            Err(cause) => r matches Err(e) && e@ == AppErrorView::Database(cause@),
        },
        item_outcome_view(r) == insert_outcome(inserted),
{
    match inserted {
        Ok(item) => Ok(item),
        Err(cause) => Err(AppError::Database(cause)),
    }
}

/// Update, first step: given the answer to the lookup of `id`, the field
/// values to write. Where the lookup found nothing or failed, or where the
/// request supplies an empty name, nothing is to be written.
pub fn update_item(id: u128, input: UpdateItem, found: Result<Option<Item>, String>) -> (r: Result<
    ItemChange,
    AppError,
>)
    ensures
        change_outcome_view(r) == update_outcome(id, input@, lookup_view(found)),
{
    match get_item(id, found) {
        Ok(current) => {
            let name = match input.name {
                Some(name) => {
                    if name.as_str().is_empty() {
                        return Err(
                            AppError::InvalidInput(
                                String::from_str("Item name must not be empty"),
                            ),
                        );
                    }
                    name
                },
                None => current.name,
            };
            let description = match input.description {
                Some(description) => description,
                None => current.description,
            };
            Ok(ItemChange { id, name, description })
        },
        Err(e) => Err(e),
    }
}

/// Update, second step: given the storage's answer to the write, the updated
/// item. A write that met no row (the item was deleted in between) is a
/// not-found failure.
pub fn finish_update(id: u128, written: Result<Option<Item>, String>) -> (r: Result<
    Item,
    AppError,
>)
    ensures
        item_outcome_view(r) == get_outcome(id, lookup_view(written)),
{
    get_item(id, written)
}

/// Delete: the confirmation with the deleted identifier where a row was
/// removed, a not-found failure where none was.
pub fn delete_item(id: u128, removed: Result<bool, String>) -> (r: Result<
    DeleteConfirmation,
    AppError,
>)
    ensures
        match r {
            Ok(done) => removed == Ok::<bool, String>(true) && done.id == id && done.message@
                == deleted_text(),
            Err(e) => delete_failure(
                id,
                match removed {
                    Ok(flag) => Ok(flag),
                    Err(cause) => Err(cause@),
                },
            ) == Some(e@),
        },
{
    match removed {
        Ok(true) => Ok(
            DeleteConfirmation { message: String::from_str("Item deleted successfully"), id },
        ),
        Ok(false) => Err(not_found(id)),
        Err(cause) => Err(AppError::Database(cause)),
    }
}

} // verus!
