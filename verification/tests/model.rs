use cassandra_crud::store::{Row, Schema, Table};
use cassandra_crud::user_id::UserId;

fn fixed_id() -> UserId {
    UserId::from_text("534a87db-df22-48eb-901b-4fac9c392954").expect("fixed id must parse")
}

fn other_id() -> UserId {
    UserId::from_text("00000000-0000-0000-0000-000000000001").expect("id must parse")
}

#[test]
fn select_on_empty_table_returns_no_rows() {
    let table = Table::new();
    assert_eq!(table.select(&fixed_id()).len(), 0);
}

#[test]
fn select_after_insert_returns_the_inserted_row() {
    let mut table = Table::new();
    let id = fixed_id();
    table.insert(Row::new(id.duplicate(), String::from("Some description")));
    let rows = table.select(&id);
    assert_eq!(rows.len(), 1);
    assert!(rows[0].user_id.eq_id(&id));
    assert_eq!(rows[0].description, "Some description");
}

#[test]
fn insert_on_the_same_key_is_an_upsert() {
    let mut table = Table::new();
    let id = fixed_id();
    table.insert(Row::new(id.duplicate(), String::from("Some description")));
    table.insert(Row::new(id.duplicate(), String::from("another")));
    let rows = table.select(&id);
    assert_eq!(rows.len(), 1);
    assert_eq!(rows[0].description, "another");
}

#[test]
fn select_after_update_returns_updated_description_and_same_key() {
    let mut table = Table::new();
    let id = fixed_id();
    table.insert(Row::new(id.duplicate(), String::from("Some description")));
    table.update_description(&id, String::from("Updated description."));
    let rows = table.select(&id);
    assert_eq!(rows.len(), 1);
    assert!(rows[0].user_id.eq_id(&id));
    assert_eq!(rows[0].description, "Updated description.");
}

#[test]
fn select_after_delete_returns_no_rows() {
    let mut table = Table::new();
    let id = fixed_id();
    table.insert(Row::new(id.duplicate(), String::from("Some description")));
    table.delete(&id);
    assert_eq!(table.select(&id).len(), 0);
}

#[test]
fn delete_of_an_absent_key_changes_nothing() {
    let mut table = Table::new();
    let id = fixed_id();
    let other = other_id();
    table.insert(Row::new(id.duplicate(), String::from("Some description")));
    table.delete(&other);
    let rows = table.select(&id);
    assert_eq!(rows.len(), 1);
    assert_eq!(rows[0].description, "Some description");
}

#[test]
fn rows_under_other_keys_survive_the_script_operations() {
    let mut table = Table::new();
    let id = fixed_id();
    let other = other_id();
    table.insert(Row::new(other.duplicate(), String::from("kept")));
    table.insert(Row::new(id.duplicate(), String::from("Some description")));
    table.update_description(&id, String::from("Updated description."));
    table.delete(&id);
    let rows = table.select(&other);
    assert_eq!(rows.len(), 1);
    assert_eq!(rows[0].description, "kept");
}

#[test]
fn schema_creation_is_idempotent() {
    let mut schema = Schema::new();
    schema.create_keyspace_if_not_exists();
    schema.create_table_if_not_exists();
    assert!(schema.keyspace_created);
    assert!(schema.table_created);
    schema.create_keyspace_if_not_exists();
    schema.create_table_if_not_exists();
    assert!(schema.keyspace_created);
    assert!(schema.table_created);
}

#[test]
fn display_line_is_exact() {
    let row = Row::new(fixed_id(), String::from("Some description"));
    assert_eq!(
        row.display_line(),
        "Query result: Row { user_id: 534a87db-df22-48eb-901b-4fac9c392954, description: \"Some description\" }",
    );
}
