//! Tests of the data-access layer: list CRUD, todo creation, and the
//! classification of storage errors.

use checklist::checklist::model::{
    create_list_from_row, create_not_found_error, extract_database_error_code, Model,
};
use checklist::common::model::Error;
use checklist::database::{Db, StorageError};
use checklist::uid::Uid;
use uuid::Uuid;

fn fresh() -> Uid {
    Uid { value: Uuid::new_v4().as_u128() }
}

fn new_model() -> Model {
    Model::new(Db::new())
}

#[test]
fn create_list() {
    let mut model = new_model();

    let list_id = fresh();
    let list_name = "new_list";
    let list = model.create_list(&Some(list_id), list_name).unwrap();

    assert_eq!(list.id, list_id);
    assert_eq!(list.name, list_name);
}

#[test]
fn model_create_todo() {
    let mut model = new_model();

    let list_id = model.create_list(&None, "new_list").unwrap().id;
    let todo_description = "new_todo";
    let todo = model.create_todo(&list_id, todo_description).unwrap();

    assert_eq!(todo.list_id, list_id);
    assert_eq!(todo.description, todo_description);
    assert_eq!(todo.done, false);
}

#[test]
fn create_list_generates_id_when_none_given() {
    let mut model = new_model();

    let list = model.create_list(&None, "groceries").unwrap();
    assert_eq!(list.name, "groceries");
    // The generated identifier renders as a version-4 UUID.
    let rendered = Uuid::from_u128(list.id.value);
    assert_eq!(rendered.get_version_num(), 4);
}

#[test]
fn create_list_twice_conflicts() {
    let mut model = new_model();

    let id = fresh();
    model.create_list(&Some(id), "first").unwrap();
    let second = model.create_list(&Some(id), "second");
    assert!(matches!(second, Err(Error::Conflict(i)) if i == id));
}

#[test]
fn missing_list_is_not_found() {
    let mut model = new_model();

    let id = fresh();
    assert!(matches!(model.get_list(&id), Err(Error::NotFound(i)) if i == id));
    assert!(matches!(model.update_list(&id, "renamed"), Err(Error::NotFound(i)) if i == id));
    assert!(matches!(model.destroy_list(&id), Err(Error::NotFound(i)) if i == id));
}

#[test]
fn update_changes_only_name() {
    let mut model = new_model();

    let id = fresh();
    let other = fresh();
    model.create_list(&Some(id), "before").unwrap();
    model.create_list(&Some(other), "untouched").unwrap();

    let updated = model.update_list(&id, "after").unwrap();
    assert_eq!(updated.id, id);
    assert_eq!(updated.name, "after");

    let fetched = model.get_list(&id).unwrap();
    assert_eq!(fetched.id, id);
    assert_eq!(fetched.name, "after");

    let bystander = model.get_list(&other).unwrap();
    assert_eq!(bystander.name, "untouched");
}

#[test]
fn destroyed_list_is_gone() {
    let mut model = new_model();

    let id = fresh();
    model.create_list(&Some(id), "doomed").unwrap();
    model.create_todo(&id, "owned").unwrap();

    model.destroy_list(&id).unwrap();
    assert!(matches!(model.get_list(&id), Err(Error::NotFound(_))));
    // The identifier is free again: the row and its todos were removed.
    model.create_list(&Some(id), "reborn").unwrap();
}

#[test]
fn create_todo_under_missing_list_is_validation() {
    let mut model = new_model();

    let list_id = fresh();
    let result = model.create_todo(&list_id, "milk");
    let expected = format!(
        "list ID '{}' not in collection",
        Uuid::from_u128(list_id.value).hyphenated()
    );
    match result {
        Err(Error::Validation(message)) => assert_eq!(message, expected),
        other => panic!("expected a validation error, got {:?}", other.is_ok()),
    }
}

#[test]
fn new_todos_are_not_done_and_distinct() {
    let mut model = new_model();

    let list_id = model.create_list(&None, "groceries").unwrap().id;
    let first = model.create_todo(&list_id, "milk").unwrap();
    let second = model.create_todo(&list_id, "milk").unwrap();

    assert_eq!(first.done, false);
    assert_eq!(second.done, false);
    assert_ne!(first.id, second.id);
}

#[test]
fn list_row_reads_back() {
    let id = fresh();
    let rendered = Uuid::from_u128(id.value).hyphenated().to_string();
    let list = create_list_from_row((rendered, String::from("groceries"))).unwrap();
    assert_eq!(list.id, id);
    assert_eq!(list.name, "groceries");

    let bad = create_list_from_row((String::from("not-an-id"), String::from("x")));
    assert!(bad.is_err());
}

#[test]
fn storage_error_classification() {
    let id = fresh();
    assert!(matches!(
        create_not_found_error(StorageError::RowNotFound, &id),
        Error::NotFound(i) if i == id
    ));
    assert!(matches!(
        create_not_found_error(StorageError::Database { code: None }, &id),
        Error::Storage(StorageError::Database { code: None })
    ));

    let with_code = StorageError::Database { code: Some(String::from("23505")) };
    assert_eq!(extract_database_error_code(&with_code).unwrap(), "23505");
    let without_code = StorageError::Database { code: None };
    assert!(extract_database_error_code(&without_code).is_err());
    assert!(extract_database_error_code(&StorageError::RowNotFound).is_err());
}

#[test]
fn error_messages_render() {
    let id = Uid { value: 0xa1a2a3a4b1b2c1c2d1d2d3d4d5d6d7d8 };
    assert_eq!(
        Error::Conflict(id).message(),
        "'a1a2a3a4-b1b2-c1c2-d1d2-d3d4d5d6d7d8' already in collection"
    );
    assert_eq!(
        Error::NotFound(id).message(),
        "'a1a2a3a4-b1b2-c1c2-d1d2-d3d4d5d6d7d8' not found in collection"
    );
    assert_eq!(Error::Validation(String::from("because")).message(), "because");
}
