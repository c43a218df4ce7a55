use api_server::error::{AppError, ErrorReply};
use api_server::handlers::{
    checked_id, create_item, delete_item, finish_create, finish_update, get_item, list_items,
    new_item, parse_item_id, update_item,
};
use api_server::models::{CreateItem, Item, UpdateItem};

const ID: u128 = 0xa1a2a3a4_b1b2_c1c2_d1d2_d3d4d5d6d7d8;
const ID_TEXT: &str = "a1a2a3a4-b1b2-c1c2-d1d2-d3d4d5d6d7d8";

fn sample(id: u128, name: &str, description: Option<&str>, at: i64) -> Item {
    Item {
        id,
        name: name.to_string(),
        description: description.map(|d| d.to_string()),
        created_at: at,
        updated_at: at,
    }
}

#[test]
fn new_item_stamps_both_times_with_now() {
    let input = CreateItem { name: "A".to_string(), description: Some("first".to_string()) };
    let item = new_item(input, 7, 1_700_000_000_000_000).unwrap();
    assert_eq!(item.id, 7);
    assert_eq!(item.name, "A");
    assert_eq!(item.description, Some("first".to_string()));
    assert_eq!(item.created_at, 1_700_000_000_000_000);
    assert_eq!(item.updated_at, 1_700_000_000_000_000);
}

#[test]
fn new_item_keeps_absent_description_absent() {
    let item = new_item(CreateItem { name: "A".to_string(), description: None }, 1, 5).unwrap();
    assert_eq!(item.description, None);
    let item =
        new_item(CreateItem { name: "A".to_string(), description: Some(String::new()) }, 1, 5)
            .unwrap();
    assert_eq!(item.description, Some(String::new()));
}

#[test]
fn new_item_rejects_empty_name() {
    let r = new_item(CreateItem { name: String::new(), description: None }, 1, 5);
    assert_eq!(r, Err(AppError::InvalidInput("Item name must not be empty".to_string())));
}

#[test]
fn create_item_rejects_empty_name() {
    let r = create_item(CreateItem { name: String::new(), description: Some("x".to_string()) });
    assert_eq!(r, Err(AppError::InvalidInput("Item name must not be empty".to_string())));
}

#[test]
fn create_item_draws_a_random_identifier() {
    let a = create_item(CreateItem { name: "A".to_string(), description: None }).unwrap();
    let b = create_item(CreateItem { name: "B".to_string(), description: None }).unwrap();
    assert_ne!(a.id, b.id);
    for id in [a.id, b.id] {
        assert_eq!((id >> 76) & 0xf, 4);
        assert_eq!((id >> 62) & 0x3, 2);
    }
    assert_eq!(a.name, "A");
    assert_eq!(b.name, "B");
}

#[test]
fn create_item_reads_the_clock_once() {
    let item = create_item(CreateItem { name: "A".to_string(), description: None }).unwrap();
    assert_eq!(item.created_at, item.updated_at);
    assert!(item.created_at > 0);
}

#[test]
fn get_item_returns_the_stored_item() {
    let stored = sample(ID, "A", Some("d"), 10);
    assert_eq!(get_item(ID, Ok(Some(stored.clone()))), Ok(stored));
}

#[test]
fn get_item_absent_is_not_found_with_the_identifier() {
    let r = get_item(ID, Ok(None));
    assert_eq!(r, Err(AppError::NotFound(format!("Item not found: {}", ID_TEXT))));
}

#[test]
fn get_item_not_found_text_of_zero_identifier() {
    let r = get_item(0, Ok(None));
    assert_eq!(
        r,
        Err(AppError::NotFound("Item not found: 00000000-0000-0000-0000-000000000000".to_string()))
    );
}

#[test]
fn get_item_storage_failure_keeps_the_cause() {
    let r = get_item(ID, Err("connection refused".to_string()));
    assert_eq!(r, Err(AppError::Database("connection refused".to_string())));
}

#[test]
fn update_item_name_only_keeps_description() {
    let current = sample(ID, "A", Some("d"), 10);
    let input = UpdateItem { name: Some("B".to_string()), description: None };
    let change = update_item(ID, input, Ok(Some(current))).unwrap();
    assert_eq!(change.id, ID);
    assert_eq!(change.name, "B");
    assert_eq!(change.description, Some("d".to_string()));
}

#[test]
fn update_item_description_only_keeps_name() {
    let current = sample(ID, "A", None, 10);
    let input = UpdateItem { name: None, description: Some(Some("x".to_string())) };
    let change = update_item(ID, input, Ok(Some(current))).unwrap();
    assert_eq!(change.name, "A");
    assert_eq!(change.description, Some("x".to_string()));
}

#[test]
fn update_item_explicit_null_clears_description() {
    let current = sample(ID, "A", Some("d"), 10);
    let input = UpdateItem { name: None, description: Some(None) };
    let change = update_item(ID, input, Ok(Some(current))).unwrap();
    assert_eq!(change.name, "A");
    assert_eq!(change.description, None);
}

#[test]
fn update_item_empty_request_changes_nothing() {
    let current = sample(ID, "A", Some("d"), 10);
    let input = UpdateItem { name: None, description: None };
    let change = update_item(ID, input, Ok(Some(current))).unwrap();
    assert_eq!(change.name, "A");
    assert_eq!(change.description, Some("d".to_string()));
}

#[test]
fn update_item_rejects_supplied_empty_name() {
    let current = sample(ID, "A", Some("d"), 10);
    let input = UpdateItem { name: Some(String::new()), description: None };
    let e = update_item(ID, input, Ok(Some(current))).unwrap_err();
    assert_eq!(e, AppError::InvalidInput("Item name must not be empty".to_string()));
    assert_eq!(e.into_response().status, 400);
}

#[test]
fn update_item_rejects_empty_name_even_with_a_description() {
    let current = sample(ID, "A", None, 10);
    let input = UpdateItem { name: Some(String::new()), description: Some(Some("x".to_string())) };
    let r = update_item(ID, input, Ok(Some(current)));
    assert_eq!(r, Err(AppError::InvalidInput("Item name must not be empty".to_string())));
}

#[test]
fn update_item_looks_up_before_it_validates() {
    let input = UpdateItem { name: Some(String::new()), description: None };
    let r = update_item(ID, input, Ok(None));
    assert_eq!(r, Err(AppError::NotFound(format!("Item not found: {}", ID_TEXT))));
    let input = UpdateItem { name: Some(String::new()), description: None };
    let r = update_item(ID, input, Err("timeout".to_string()));
    assert_eq!(r, Err(AppError::Database("timeout".to_string())));
}

#[test]
fn finish_create_returns_the_stored_item() {
    let stored = sample(ID, "A", Some("d"), 10);
    assert_eq!(finish_create(Ok(stored.clone())), Ok(stored));
}

#[test]
fn finish_create_failed_insert_is_a_storage_failure() {
    let e = finish_create(Err("duplicate key".to_string())).unwrap_err();
    assert_eq!(e, AppError::Database("duplicate key".to_string()));
    let reply = e.into_response();
    assert_eq!(reply.status, 500);
    assert_eq!(reply.error, "Internal Server Error");
}

#[test]
fn update_item_absent_is_not_found() {
    let input = UpdateItem { name: Some("B".to_string()), description: None };
    let r = update_item(ID, input, Ok(None));
    assert_eq!(r, Err(AppError::NotFound(format!("Item not found: {}", ID_TEXT))));
}

#[test]
fn update_item_storage_failure_keeps_the_cause() {
    let input = UpdateItem { name: Some("B".to_string()), description: None };
    let r = update_item(ID, input, Err("timeout".to_string()));
    assert_eq!(r, Err(AppError::Database("timeout".to_string())));
}

#[test]
fn finish_update_returns_the_written_row() {
    let mut row = sample(ID, "B", None, 10);
    row.updated_at = 20;
    assert_eq!(finish_update(ID, Ok(Some(row.clone()))), Ok(row));
}

#[test]
fn finish_update_row_gone_is_not_found() {
    let r = finish_update(ID, Ok(None));
    assert_eq!(r, Err(AppError::NotFound(format!("Item not found: {}", ID_TEXT))));
    let r = finish_update(ID, Err("broken pipe".to_string()));
    assert_eq!(r, Err(AppError::Database("broken pipe".to_string())));
}

#[test]
fn delete_item_confirms_with_the_identifier() {
    let done = delete_item(ID, Ok(true)).unwrap();
    assert_eq!(done.message, "Item deleted successfully");
    assert_eq!(done.id, ID);
}

#[test]
fn delete_item_absent_is_not_found_never_500() {
    let e = delete_item(ID, Ok(false)).unwrap_err();
    assert_eq!(e, AppError::NotFound(format!("Item not found: {}", ID_TEXT)));
    assert_eq!(e.into_response().status, 404);
}

#[test]
fn delete_item_storage_failure_keeps_the_cause() {
    let r = delete_item(ID, Err("deadlock".to_string()));
    assert_eq!(r, Err(AppError::Database("deadlock".to_string())));
}

#[test]
fn list_items_returns_rows_as_given() {
    let rows = vec![sample(3, "c", None, 30), sample(2, "b", None, 20), sample(1, "a", None, 10)];
    assert_eq!(list_items(Ok(rows.clone())), Ok(rows));
    assert_eq!(list_items(Ok(Vec::new())), Ok(Vec::new()));
}

#[test]
fn list_items_masks_storage_failure() {
    let r = list_items(Err("password authentication failed".to_string()));
    assert_eq!(r, Err(AppError::Internal("Internal Server Error".to_string())));
}

#[test]
fn parse_item_id_reads_hyphenated_text() {
    assert_eq!(parse_item_id(ID_TEXT), Ok(ID));
    assert_eq!(parse_item_id("00000000-0000-0000-0000-000000000001"), Ok(1));
}

#[test]
fn parse_item_id_rejects_malformed_text() {
    for text in ["", "42", "not-a-uuid", "a1a2a3a4-b1b2-c1c2-d1d2-d3d4d5d6d7"] {
        assert_eq!(
            parse_item_id(text),
            Err(AppError::InvalidInput("Invalid item id".to_string()))
        );
    }
}

#[test]
fn checked_id_follows_the_parser() {
    assert_eq!(checked_id(Some(9)), Ok(9));
    assert_eq!(checked_id(None), Err(AppError::InvalidInput("Invalid item id".to_string())));
}

#[test]
fn into_response_maps_each_kind() {
    assert_eq!(
        AppError::NotFound("gone".to_string()).into_response(),
        ErrorReply { status: 404, error: "gone".to_string() }
    );
    assert_eq!(
        AppError::InvalidInput("bad".to_string()).into_response(),
        ErrorReply { status: 400, error: "bad".to_string() }
    );
    assert_eq!(
        AppError::Internal("Internal Server Error".to_string()).into_response(),
        ErrorReply { status: 500, error: "Internal Server Error".to_string() }
    );
}

#[test]
fn into_response_masks_the_storage_cause() {
    assert_eq!(
        AppError::Database("relation \"items\" does not exist".to_string()).into_response(),
        ErrorReply { status: 500, error: "Internal Server Error".to_string() }
    );
}

#[test]
fn to_text_names_the_kind() {
    assert_eq!(AppError::Database("x".to_string()).to_text(), "Database error: x");
    assert_eq!(AppError::NotFound("x".to_string()).to_text(), "Not found: x");
    assert_eq!(AppError::InvalidInput("x".to_string()).to_text(), "Invalid input: x");
    assert_eq!(AppError::Internal("x".to_string()).to_text(), "Internal server error: x");
}
