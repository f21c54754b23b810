//! Tests of the request controller: identifier validation, status mapping,
//! rendered replies, and the full create-use-remove scenario.

use checklist::checklist::model::Model;
use checklist::checklist::service::Service;
use checklist::database::Db;
use checklist::graphql::checklist::{Context, Mutation, Query};
use checklist::grpc::checklist::{
    convert_id, AddListRequest, AddTodoRequest, Code, Controller, GetListRequest,
    RemoveListRequest, UpdateListRequest,
};
use checklist::uid::Uid;
use uuid::Uuid;

fn new_controller() -> Controller {
    Controller::new(Service::new(Model::new(Db::new())))
}

#[test]
fn convert_id_accepts_and_rejects() {
    let id = convert_id("a1a2a3a4-b1b2-c1c2-d1d2-d3d4d5d6d7d8").unwrap();
    assert_eq!(id, Uid { value: 0xa1a2a3a4b1b2c1c2d1d2d3d4d5d6d7d8 });

    let status = convert_id("not-a-uuid").unwrap_err();
    assert_eq!(status.code, Code::InvalidArgument);
    assert_eq!(status.message, "'not-a-uuid' is not a valid v4 UUID");
}

#[test]
fn add_list_replies_with_fresh_rendered_id() {
    let mut controller = new_controller();

    let reply = controller
        .add_list(AddListRequest { name: String::from("groceries") })
        .unwrap();
    assert_eq!(reply.name, "groceries");
    // The identifier is a freshly generated version-4 UUID in hyphenated form.
    let parsed = Uuid::parse_str(&reply.id).unwrap();
    assert_eq!(parsed.get_version_num(), 4);
    assert_eq!(reply.id, parsed.hyphenated().to_string());
}

#[test]
fn get_list_statuses() {
    let mut controller = new_controller();

    let bad = controller.get_list(GetListRequest { id: String::from("nope") }).unwrap_err();
    assert_eq!(bad.code, Code::InvalidArgument);
    assert_eq!(bad.message, "'nope' is not a valid v4 UUID");

    let absent_id = Uuid::new_v4().hyphenated().to_string();
    let absent = controller.get_list(GetListRequest { id: absent_id.clone() }).unwrap_err();
    assert_eq!(absent.code, Code::NotFound);
    assert_eq!(absent.message, format!("'{}' not found in collection", absent_id));

    let created = controller
        .add_list(AddListRequest { name: String::from("chores") })
        .unwrap();
    let fetched = controller.get_list(GetListRequest { id: created.id.clone() }).unwrap();
    assert_eq!(fetched.id, created.id);
    assert_eq!(fetched.name, "chores");
}

#[test]
fn update_list_statuses() {
    let mut controller = new_controller();

    let bad = controller
        .update_list(UpdateListRequest { id: String::from("nope"), name: String::from("x") })
        .unwrap_err();
    assert_eq!(bad.code, Code::InvalidArgument);

    let absent_id = Uuid::new_v4().hyphenated().to_string();
    let absent = controller
        .update_list(UpdateListRequest { id: absent_id.clone(), name: String::from("x") })
        .unwrap_err();
    assert_eq!(absent.code, Code::NotFound);
    assert_eq!(absent.message, format!("'{}' not found in collection", absent_id));

    let created = controller
        .add_list(AddListRequest { name: String::from("before") })
        .unwrap();
    let updated = controller
        .update_list(UpdateListRequest { id: created.id.clone(), name: String::from("after") })
        .unwrap();
    assert_eq!(updated.id, created.id);
    assert_eq!(updated.name, "after");
}

#[test]
fn remove_list_statuses() {
    let mut controller = new_controller();

    let bad = controller
        .remove_list(RemoveListRequest { id: String::from("nope") })
        .unwrap_err();
    assert_eq!(bad.code, Code::InvalidArgument);

    let absent_id = Uuid::new_v4().hyphenated().to_string();
    let absent = controller
        .remove_list(RemoveListRequest { id: absent_id.clone() })
        .unwrap_err();
    assert_eq!(absent.code, Code::NotFound);
}

#[test]
fn add_todo_statuses() {
    let mut controller = new_controller();

    let bad = controller
        .add_todo(AddTodoRequest {
            list_id: String::from("nope"),
            description: String::from("milk"),
        })
        .unwrap_err();
    assert_eq!(bad.code, Code::InvalidArgument);
    assert_eq!(bad.message, "'nope' is not a valid v4 UUID");

    let absent_id = Uuid::new_v4().hyphenated().to_string();
    let absent = controller
        .add_todo(AddTodoRequest {
            list_id: absent_id.clone(),
            description: String::from("milk"),
        })
        .unwrap_err();
    assert_eq!(absent.code, Code::InvalidArgument);
    assert_eq!(absent.message, format!("list ID '{}' not in collection", absent_id));
}

#[test]
fn list_lifecycle_scenario() {
    let mut controller = new_controller();

    let list = controller
        .add_list(AddListRequest { name: String::from("groceries") })
        .unwrap();
    assert_eq!(list.name, "groceries");
    Uuid::parse_str(&list.id).unwrap();

    let todo = controller
        .add_todo(AddTodoRequest {
            list_id: list.id.clone(),
            description: String::from("milk"),
        })
        .unwrap();
    assert_eq!(todo.list_id, list.id);
    assert_ne!(todo.id, list.id);
    Uuid::parse_str(&todo.id).unwrap();
    assert_eq!(todo.description, "milk");
    assert_eq!(todo.done, false);

    controller.remove_list(RemoveListRequest { id: list.id.clone() }).unwrap();

    let gone = controller.get_list(GetListRequest { id: list.id.clone() }).unwrap_err();
    assert_eq!(gone.code, Code::NotFound);
}

#[test]
fn graphql_stubs() {
    let context = Context {};
    let todo = Query::todo(&context, String::from("an-id"));
    assert_eq!(todo.id, "an-id");
    assert_eq!(todo.name, "test");

    let added = Mutation::add_todo(&context, String::from("an-id"), String::from("a-name"));
    assert_eq!(added.id, "an-id");
    assert_eq!(added.name, "a-name");
}
