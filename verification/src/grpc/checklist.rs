//! The request controller: each operation takes a wire-shaped request of
//! plain strings, validates identifier fields, invokes the service, and
//! renders the outcome as a reply or a status, with identifiers in their
//! hyphenated form. A missing entity maps to a not-found status, a broken
//! referential rule to an invalid-argument status, and everything else to a
//! generic internal status.

use vstd::prelude::*;

use crate::checklist::model::validation_message;
use crate::checklist::service::Service;
use crate::common::model::not_found_message;
use crate::common::service::{Error as ServiceError, Failure};
use crate::database::{with_list, with_todo, without_list, StoreView};
use crate::uid::{hyphenated, hyphenated_string, parsed_uuid, parse_uid, Uid};
use vstd::string::StringExecFns;

verus! {

#[derive(Debug)]
pub struct AddListRequest {
    pub name: String,
}

#[derive(Debug)]
pub struct GetListRequest {
    pub id: String,
}

#[derive(Debug)]
pub struct UpdateListRequest {
    pub id: String,
    pub name: String,
}

#[derive(Debug)]
pub struct RemoveListRequest {
    pub id: String,
}

#[derive(Debug)]
pub struct AddTodoRequest {
    pub list_id: String,
    pub description: String,
}

#[derive(Debug)]
pub struct ListReply {
    pub id: String,
    pub name: String,
}

#[derive(Debug)]
pub struct TodoReply {
    pub list_id: String,
    pub id: String,
    pub description: String,
    pub done: bool,
}

#[derive(Debug)]
pub struct EmptyReply {}

/// The status codes the controller answers failures with.
#[derive(Clone, Copy, PartialEq, Eq, Structural, Debug)]
pub enum Code {
    Internal,
    NotFound,
    InvalidArgument,
}

/// A failure reply: a code and a message for the caller.
#[derive(Debug)]
pub struct Status {
    pub code: Code,
    pub message: String,
}

impl Status {
    pub fn new(code: Code, message: String) -> (r: Status)
        ensures
            r.code == code,
            r.message == message,
    {
        Status { code, message }
    }
}

/// The message of the generic internal status, which hides the cause from the
/// caller.
pub open spec fn unknown_error_message() -> Seq<char> {
    "Unknown Error"@
}

/// The message rejecting a malformed identifier field.
pub open spec fn invalid_id_message(id: Seq<char>) -> Seq<char> {
    "'"@ + id + "' is not a valid v4 UUID"@
}

/// Parses an identifier field, rejecting a malformed one with an
/// invalid-argument status.
pub fn convert_id(id: &str) -> (r: Result<Uid, Status>)
    ensures
        parsed_uuid(id@) matches Some(v) ==> (r matches Ok(u) && u.value == v),
        parsed_uuid(id@) is None ==> {
            &&& r matches Err(s)
            &&& s.code == Code::InvalidArgument
            &&& s.message@ == invalid_id_message(id@)
        },
{
    match parse_uid(id) {
        Some(u) => Ok(u),
        None => {
            let message = String::from_str("'").concat(id).concat("' is not a valid v4 UUID");
            Err(Status::new(Code::InvalidArgument, message))
        },
    }
}

/// The controller over the service layer.
pub struct Controller {
    service: Service,
}

impl View for Controller {
    type V = StoreView;

    closed spec fn view(&self) -> StoreView {
        self.service@
    }
}

impl Controller {
    /// The store's invariants hold.
    pub closed spec fn wf(self) -> bool {
        self.service.wf()
    }

    pub fn new(service: Service) -> (r: Controller)
        requires
            service.wf(),
        ensures
            r.wf(),
            r@ == service@,
    {
        Controller { service }
    }

    /// Adds a list under a freshly generated identifier and replies with it
    /// rendered; any failure is answered with the generic internal status.
    pub fn add_list(&mut self, request: AddListRequest) -> (r: Result<ListReply, Status>)
        requires
            old(self).wf(),
        ensures
            final(self).wf(),
            match r {
                Ok(reply) => {
                    &&& reply.name@ == request.name@
                    &&& exists|v: u128|
                        {
                            &&& #[trigger] hyphenated(v) == reply.id@
                            &&& !old(self)@.lists.dom().contains(Uid { value: v })
                            &&& final(self)@ == with_list(
                                old(self)@,
                                Uid { value: v },
                                request.name@,
                            )
                        }
                },
                Err(status) => {
                    &&& status.code == Code::Internal
                    &&& status.message@ == unknown_error_message()
                    &&& final(self)@ == old(self)@
                },
            },
    {
        let result = self.service.add_list(&None, &request.name);

        match result {
            Ok(list) => {
                let reply = ListReply { id: hyphenated_string(&list.id), name: list.name };
                proof {
                    assert(hyphenated(list.id.value) == reply.id@);
                    assert(Uid { value: list.id.value } == list.id);
                }
                Ok(reply)
            },
            Err(_) => Err(Status::new(Code::Internal, String::from_str("Unknown Error"))),
        }
    }

    /// Fetches a list by its rendered identifier: a malformed identifier is
    /// an invalid argument, a missing list is not found.
    pub fn get_list(&self, request: GetListRequest) -> (r: Result<ListReply, Status>)
        requires
            self.wf(),
        ensures
            parsed_uuid(request.id@) is None ==> {
                &&& r matches Err(s)
                &&& s.code == Code::InvalidArgument
                &&& s.message@ == invalid_id_message(request.id@)
            },
            parsed_uuid(request.id@) matches Some(v) ==> {
                &&& self@.lists.dom().contains(Uid { value: v }) ==> {
                    &&& r matches Ok(reply)
                    &&& reply.id@ == hyphenated(v)
                    &&& reply.name@ == self@.lists[Uid { value: v }]
                }
                &&& !self@.lists.dom().contains(Uid { value: v }) ==> {
                    &&& r matches Err(s)
                    &&& s.code == Code::NotFound
                    &&& s.message@ == not_found_message(Uid { value: v })
                }
            },
    {
        let id = match convert_id(request.id.as_str()) {
            Err(status) => {
                return Err(status);
            },
            Ok(id) => id,
        };

        let result = self.service.get_list(&id);

        let error = match result {
            Ok(list) => {
                return Ok(ListReply { id: hyphenated_string(&list.id), name: list.name });
            },
            Err(err) => err,
        };

        let status = match &error {
            Failure::Service(err) => match err {
                ServiceError::NotFound(_) => Status::new(Code::NotFound, err.message()),
                _ => Status::new(Code::Internal, String::from_str("Unknown Error")),
            },
            _ => Status::new(Code::Internal, String::from_str("Unknown Error")),
        };

        Err(status)
    }

    /// Updates a list's name by its rendered identifier: a malformed
    /// identifier is an invalid argument, a missing list is not found.
    pub fn update_list(&mut self, request: UpdateListRequest) -> (r: Result<ListReply, Status>)
        requires
            old(self).wf(),
        ensures
            final(self).wf(),
            parsed_uuid(request.id@) is None ==> {
                &&& r matches Err(s)
                &&& s.code == Code::InvalidArgument
                &&& s.message@ == invalid_id_message(request.id@)
                &&& final(self)@ == old(self)@
            },
            parsed_uuid(request.id@) matches Some(v) ==> {
                &&& old(self)@.lists.dom().contains(Uid { value: v }) ==> {
                    &&& r matches Ok(reply)
                    &&& reply.id@ == hyphenated(v)
                    &&& reply.name@ == request.name@
                    &&& final(self)@ == with_list(old(self)@, Uid { value: v }, request.name@)
                }
                &&& !old(self)@.lists.dom().contains(Uid { value: v }) ==> {
                    &&& r matches Err(s)
                    &&& s.code == Code::NotFound
                    &&& s.message@ == not_found_message(Uid { value: v })
                    &&& final(self)@ == old(self)@
                }
            },
    {
        let id = match convert_id(request.id.as_str()) {
            Err(status) => {
                return Err(status);
            },
            Ok(id) => id,
        };

        let result = self.service.update_list(&id, &request.name);

        let error = match result {
            Ok(list) => {
                return Ok(ListReply { id: hyphenated_string(&list.id), name: list.name });
            },
            Err(err) => err,
        };

        let status = match &error {
            Failure::Service(err) => match err {
                ServiceError::NotFound(_) => Status::new(Code::NotFound, err.message()),
                _ => Status::new(Code::Internal, String::from_str("Unknown Error")),
            },
            _ => Status::new(Code::Internal, String::from_str("Unknown Error")),
        };

        Err(status)
    }

    /// Removes a list, and with it its todos, by its rendered identifier: a
    /// malformed identifier is an invalid argument, a missing list is not
    /// found.
    pub fn remove_list(&mut self, request: RemoveListRequest) -> (r: Result<EmptyReply, Status>)
        requires
            old(self).wf(),
        ensures
            final(self).wf(),
            parsed_uuid(request.id@) is None ==> {
                &&& r matches Err(s)
                &&& s.code == Code::InvalidArgument
                &&& s.message@ == invalid_id_message(request.id@)
                &&& final(self)@ == old(self)@
            },
            parsed_uuid(request.id@) matches Some(v) ==> {
                &&& old(self)@.lists.dom().contains(Uid { value: v }) ==> {
                    &&& r is Ok
                    &&& final(self)@ == without_list(old(self)@, Uid { value: v })
                }
                &&& !old(self)@.lists.dom().contains(Uid { value: v }) ==> {
                    &&& r matches Err(s)
                    &&& s.code == Code::NotFound
                    &&& s.message@ == not_found_message(Uid { value: v })
                    &&& final(self)@ == old(self)@
                }
            },
    {
        let id = match convert_id(request.id.as_str()) {
            Err(status) => {
                return Err(status);
            },
            Ok(id) => id,
        };

        let result = self.service.remove_list(&id);

        let error = match result {
            Ok(_) => {
                return Ok(EmptyReply {  });
            },
            Err(err) => err,
        };

        let status = match &error {
            Failure::Service(err) => match err {
                ServiceError::NotFound(_) => Status::new(Code::NotFound, err.message()),
                _ => Status::new(Code::Internal, String::from_str("Unknown Error")),
            },
            _ => Status::new(Code::Internal, String::from_str("Unknown Error")),
        };

        Err(status)
    }

    /// Adds a todo under a list named by its rendered identifier: a malformed
    /// identifier or a list that does not exist is an invalid argument; the
    /// new todo comes back rendered, not done.
    pub fn add_todo(&mut self, request: AddTodoRequest) -> (r: Result<TodoReply, Status>)
        requires
            old(self).wf(),
        ensures
            final(self).wf(),
            parsed_uuid(request.list_id@) is None ==> {
                &&& r matches Err(s)
                &&& s.code == Code::InvalidArgument
                &&& s.message@ == invalid_id_message(request.list_id@)
                &&& final(self)@ == old(self)@
            },
            parsed_uuid(request.list_id@) matches Some(v) ==> {
                &&& !old(self)@.lists.dom().contains(Uid { value: v }) ==> {
                    &&& r matches Err(s)
                    &&& s.code == Code::InvalidArgument
                    &&& s.message@ == validation_message(Uid { value: v })
                    &&& final(self)@ == old(self)@
                }
                &&& old(self)@.lists.dom().contains(Uid { value: v }) ==> match r {
                Ok(reply) => {
                    &&& reply.list_id@ == hyphenated(v)
                    &&& reply.description@ == request.description@
                    &&& reply.done == false
                    &&& exists|t: u128|
                        {
                            &&& #[trigger] hyphenated(t) == reply.id@
                            &&& !old(self)@.todos.dom().contains(Uid { value: t })
                            &&& final(self)@ == with_todo(
                                old(self)@,
                                Uid { value: v },
                                Uid { value: t },
                                request.description@,
                                false,
                            )
                        }
                },
                    Err(status) => {
                        &&& status.code == Code::Internal
                        &&& status.message@ == unknown_error_message()
                        &&& final(self)@ == old(self)@
                    },
                }
            },
    {
        let list_id = match convert_id(request.list_id.as_str()) {
            Err(status) => {
                return Err(status);
            },
            Ok(id) => id,
        };

        let result = self.service.add_todo(&list_id, &request.description);

        let error = match result {
            Ok(todo) => {
                let reply = TodoReply {
                    list_id: hyphenated_string(&todo.list_id),
                    id: hyphenated_string(&todo.id),
                    description: todo.description,
                    done: todo.done,
                };
                proof {
                    assert(hyphenated(todo.id.value) == reply.id@);
                    assert(Uid { value: todo.id.value } == todo.id);
                    assert(Uid { value: list_id.value } == list_id);
                }
                return Ok(reply);
            },
            Err(err) => err,
        };

        let status = match &error {
            Failure::Service(err) => match err {
                ServiceError::Validation(_) => Status::new(Code::InvalidArgument, err.message()),
                _ => Status::new(Code::Internal, String::from_str("Unknown Error")),
            },
            _ => Status::new(Code::Internal, String::from_str("Unknown Error")),
        };

        Err(status)
    }
}

} // verus!
