//! Tests of the store's statements, and of identifier rendering and parsing
//! as they surface through the store and the controller — held against the
//! `uuid` crate they rely on.

use checklist::database::{Db, StorageError};
use checklist::grpc::checklist::convert_id;
use checklist::uid::Uid;
use uuid::Uuid;

#[test]
fn hyphenated_rendering_is_exact() {
    let mut db = Db::new();
    let id = Uid { value: 0xa1a2a3a4b1b2c1c2d1d2d3d4d5d6d7d8 };
    db.insert_list(id, "groceries").unwrap();
    let (rendered, _) = db.select_list(id).unwrap();
    assert_eq!(rendered, "a1a2a3a4-b1b2-c1c2-d1d2-d3d4d5d6d7d8");

    let mut db2 = Db::new();
    db2.insert_list(Uid { value: 0 }, "zero").unwrap();
    let (zero, _) = db2.select_list(Uid { value: 0 }).unwrap();
    assert_eq!(zero, "00000000-0000-0000-0000-000000000000");
    db2.insert_list(Uid { value: u128::MAX }, "top").unwrap();
    let (top, _) = db2.select_list(Uid { value: u128::MAX }).unwrap();
    assert_eq!(top, "ffffffff-ffff-ffff-ffff-ffffffffffff");
}

#[test]
fn parse_round_trips_rendering() {
    let id = Uid { value: Uuid::new_v4().as_u128() };
    let rendered = Uuid::from_u128(id.value).hyphenated().to_string();
    assert_eq!(convert_id(&rendered).unwrap(), id);

    // The parser also takes the simple form the crate documents.
    assert_eq!(
        convert_id("a1a2a3a4b1b2c1c2d1d2d3d4d5d6d7d8").unwrap(),
        Uid { value: 0xa1a2a3a4b1b2c1c2d1d2d3d4d5d6d7d8 }
    );
    assert!(convert_id("not a uuid").is_err());
    assert!(convert_id("").is_err());
}

#[test]
fn insert_list_reports_unique_violation() {
    let mut db = Db::new();
    let id = Uid { value: 17 };
    db.insert_list(id, "first").unwrap();
    match db.insert_list(id, "second") {
        Err(StorageError::Database { code: Some(code) }) => assert_eq!(code, "23505"),
        other => panic!("expected a unique violation, got {:?}", other),
    }
}

#[test]
fn select_update_delete_report_missing_rows() {
    let mut db = Db::new();
    let id = Uid { value: 18 };
    assert!(matches!(db.select_list(id), Err(StorageError::RowNotFound)));
    assert!(matches!(db.update_list(id, "x"), Err(StorageError::RowNotFound)));
    assert!(matches!(db.delete_list(id), Err(StorageError::RowNotFound)));

    db.insert_list(id, "groceries").unwrap();
    let (rendered, name) = db.select_list(id).unwrap();
    assert_eq!(rendered, Uuid::from_u128(18).hyphenated().to_string());
    assert_eq!(name, "groceries");

    let (updated_id, updated_name) = db.update_list(id, "renamed").unwrap();
    assert_eq!(updated_id, rendered);
    assert_eq!(updated_name, "renamed");

    let deleted = db.delete_list(id).unwrap();
    assert_eq!(deleted, rendered);
    assert!(matches!(db.select_list(id), Err(StorageError::RowNotFound)));
}

#[test]
fn insert_todo_reports_violations() {
    let mut db = Db::new();
    let list_id = Uid { value: 19 };
    let todo_id = Uid { value: 20 };

    match db.insert_todo(list_id, todo_id, "milk", false) {
        Err(StorageError::Database { code: Some(code) }) => assert_eq!(code, "23503"),
        other => panic!("expected a foreign-key violation, got {:?}", other),
    }

    db.insert_list(list_id, "groceries").unwrap();
    db.insert_todo(list_id, todo_id, "milk", false).unwrap();
    match db.insert_todo(list_id, todo_id, "again", false) {
        Err(StorageError::Database { code: Some(code) }) => assert_eq!(code, "23505"),
        other => panic!("expected a unique violation, got {:?}", other),
    }
}

#[test]
fn delete_cascades_to_owned_todos() {
    let mut db = Db::new();
    let kept_list = Uid { value: 21 };
    let doomed_list = Uid { value: 22 };
    db.insert_list(kept_list, "kept").unwrap();
    db.insert_list(doomed_list, "doomed").unwrap();
    db.insert_todo(kept_list, Uid { value: 23 }, "stays", false).unwrap();
    db.insert_todo(doomed_list, Uid { value: 24 }, "goes", false).unwrap();

    db.delete_list(doomed_list).unwrap();

    // The kept todo's identifier is still taken; the cascaded one is free.
    assert!(matches!(
        db.insert_todo(kept_list, Uid { value: 23 }, "again", false),
        Err(StorageError::Database { code: Some(_) })
    ));
    db.insert_todo(kept_list, Uid { value: 24 }, "fresh", false).unwrap();
}
