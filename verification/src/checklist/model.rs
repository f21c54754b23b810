//! The data-access layer: each operation issues one statement against the
//! store and classifies what came back, turning a unique violation on list
//! creation into `Conflict`, a missing row into `NotFound`, and a foreign-key
//! violation on todo creation into `Validation`; anything else is passed
//! through as the storage error it was.

use vstd::prelude::*;

use crate::common::model::Error;
use crate::database::{with_list, with_todo, without_list, Db, StorageError, StoreView};
use crate::database::{foreign_key_violation_code, unique_violation_code};
use crate::uid::{fresh_uid, hyphenated, hyphenated_string, parse_uid, parsed_uuid, Uid};
use vstd::string::StringExecFns;

verus! {

/// A named container of todos.
#[derive(Debug)]
pub struct TodoList {
    pub id: Uid,
    pub name: String,
}

/// One entry of a list.
#[derive(Debug)]
pub struct Todo {
    pub list_id: Uid,
    pub id: Uid,
    pub description: String,
    pub done: bool,
}

/// The data-access layer over the store.
pub struct Model {
    db: Db,
}

impl View for Model {
    type V = StoreView;

    closed spec fn view(&self) -> StoreView {
        self.db@
    }
}

/// The text of the validation error for a todo whose list is missing.
pub open spec fn validation_message(list_id: Uid) -> Seq<char> {
    "list ID '"@ + hyphenated(list_id.value) + "' not in collection"@
}

impl Model {
    /// The store's invariants hold.
    pub closed spec fn wf(self) -> bool {
        self.db.wf()
    }

    pub fn new(db: Db) -> (r: Model)
        requires
            db.wf(),
        ensures
            r.wf(),
            r@ == db@,
    {
        Model { db }
    }

    /// Inserts a list under the given identifier, or a freshly generated one
    /// where none is given. An identifier already in use is a `Conflict`; no
    /// other failure is possible.
    pub fn create_list(&mut self, id: &Option<Uid>, name: &str) -> (r: Result<TodoList, Error>)
        requires
            old(self).wf(),
        ensures
            final(self).wf(),
            match r {
                Ok(list) => {
                    &&& list.name@ == name@
                    &&& !old(self)@.lists.dom().contains(list.id)
                    &&& final(self)@ == with_list(old(self)@, list.id, name@)
                    &&& (*id matches Some(i) ==> list.id == i)
                },
                Err(e) => {
                    &&& e matches Error::Conflict(i)
                    &&& old(self)@.lists.dom().contains(i)
                    &&& final(self)@ == old(self)@
                    &&& (*id matches Some(j) ==> i == j)
                },
            },
    {
        let id_v = match id {
            Some(i) => *i,
            None => fresh_uid(),
        };
        let list = TodoList { id: id_v, name: String::from_str(name) };

        let result = self.db.insert_list(id_v, name);

        let error = match result {
            Ok(_) => {
                return Ok(list);
            },
            Err(err) => err,
        };

        let error_code = match extract_database_error_code(&error) {
            Err(_) => {
                return Err(Error::Storage(error));
            },
            Ok(code) => code,
        };

        if error_code == unique_violation_code() {
            Err(Error::Conflict(id_v))
        } else {
            Err(Error::Storage(error))
        }
    }

    /// Fetches a list by identifier; a missing row is a `NotFound`.
    pub fn get_list(&self, id: &Uid) -> (r: Result<TodoList, Error>)
        requires
            self.wf(),
        ensures
            self@.lists.dom().contains(*id) ==> {
                &&& r matches Ok(list)
                &&& list.id == *id
                &&& list.name@ == self@.lists[*id]
            },
            !self@.lists.dom().contains(*id) ==> (r matches Err(e) && e == Error::NotFound(*id)),
    {
        let result = self.db.select_list(*id);

        let row = match result {
            Err(err) => {
                return Err(create_not_found_error(err, id));
            },
            Ok(row) => row,
        };

        let list = match create_list_from_row(row) {
            Err(err) => {
                return Err(err);
            },
            Ok(list) => list,
        };

        Ok(list)
    }

    /// Updates a list's name by identifier, returning the updated row; a
    /// missing row is a `NotFound`.
    pub fn update_list(&mut self, id: &Uid, name: &str) -> (r: Result<TodoList, Error>)
        requires
            old(self).wf(),
        ensures
            final(self).wf(),
            old(self)@.lists.dom().contains(*id) ==> {
                &&& r matches Ok(list)
                &&& list.id == *id
                &&& list.name@ == name@
                &&& final(self)@ == with_list(old(self)@, *id, name@)
            },
            !old(self)@.lists.dom().contains(*id) ==> {
                &&& r matches Err(e) && e == Error::NotFound(*id)
                &&& final(self)@ == old(self)@
            },
    {
        let result = self.db.update_list(*id, name);

        let row = match result {
            Err(err) => {
                return Err(create_not_found_error(err, id));
            },
            Ok(row) => row,
        };

        let list = match create_list_from_row(row) {
            Err(err) => {
                return Err(err);
            },
            Ok(list) => list,
        };

        Ok(list)
    }

    /// Deletes a list by identifier, and with it every todo it owned; a
    /// missing row is a `NotFound`.
    pub fn destroy_list(&mut self, id: &Uid) -> (r: Result<(), Error>)
        requires
            old(self).wf(),
        ensures
            final(self).wf(),
            old(self)@.lists.dom().contains(*id) ==> {
                &&& r is Ok
                &&& final(self)@ == without_list(old(self)@, *id)
            },
            !old(self)@.lists.dom().contains(*id) ==> {
                &&& r matches Err(e) && e == Error::NotFound(*id)
                &&& final(self)@ == old(self)@
            },
    {
        let result = self.db.delete_list(*id);

        match result {
            Ok(_) => Ok(()),
            Err(err) => Err(create_not_found_error(err, id)),
        }
    }

    /// Inserts a todo with a freshly generated identifier and `done` false.
    /// A `list_id` that names no list is a `Validation` error, never a bare
    /// storage error; only a collision of the generated identifier is passed
    /// through as one.
    pub fn create_todo(&mut self, list_id: &Uid, description: &str) -> (r: Result<Todo, Error>)
        requires
            old(self).wf(),
        ensures
            final(self).wf(),
            !old(self)@.lists.dom().contains(*list_id) ==> {
                &&& r matches Err(e)
                &&& e matches Error::Validation(m) && m@ == validation_message(*list_id)
                &&& final(self)@ == old(self)@
            },
            old(self)@.lists.dom().contains(*list_id) ==> match r {
                Ok(todo) => {
                    &&& todo.list_id == *list_id
                    &&& todo.description@ == description@
                    &&& todo.done == false
                    &&& !old(self)@.todos.dom().contains(todo.id)
                    &&& final(self)@ == with_todo(
                        old(self)@,
                        *list_id,
                        todo.id,
                        description@,
                        false,
                    )
                },
                Err(e) => {
                    &&& e matches Error::Storage(_)
                    &&& final(self)@ == old(self)@
                },
            },
    {
        let todo = Todo {
            list_id: *list_id,
            id: fresh_uid(),
            description: String::from_str(description),
            done: false,
        };

        let result = self.db.insert_todo(*list_id, todo.id, description, false);

        let error = match result {
            Ok(_) => {
                return Ok(todo);
            },
            Err(err) => err,
        };

        let error_code = match extract_database_error_code(&error) {
            Err(_) => {
                return Err(Error::Storage(error));
            },
            Ok(code) => code,
        };

        proof {
            crate::database::lemma_violation_codes_differ();
        }
        if error_code == foreign_key_violation_code() {
            let h = hyphenated_string(list_id);
            let message = String::from_str("list ID '").concat(h.as_str()).concat(
                "' not in collection",
            );
            Err(Error::Validation(message))
        } else {
            Err(Error::Storage(error))
        }
    }
}

/// Reads a fetched `(id, name)` row back into a list; a row whose identifier
/// does not parse is passed through as a decode error.
pub fn create_list_from_row(row: (String, String)) -> (r: Result<TodoList, Error>)
    ensures
        match r {
            Ok(list) => {
                &&& parsed_uuid(row.0@) == Some(list.id.value)
                &&& list.name == row.1
            },
            Err(e) => {
                &&& parsed_uuid(row.0@) is None
                &&& e == Error::Storage(StorageError::Decode(row.0))
            },
        },
{
    let (id_s, name) = row;
    match parse_uid(id_s.as_str()) {
        Some(id) => Ok(TodoList { id, name }),
        None => Err(Error::Storage(StorageError::Decode(id_s))),
    }
}

/// Classifies a failed single-row fetch: no row matched means `NotFound`;
/// anything else is passed through.
pub fn create_not_found_error(error: StorageError, id: &Uid) -> (r: Error)
    ensures
        error matches StorageError::RowNotFound ==> r == Error::NotFound(*id),
        !(error matches StorageError::RowNotFound) ==> r == Error::Storage(error),
{
    match error {
        StorageError::RowNotFound => Error::NotFound(*id),
        _ => Error::Storage(error),
    }
}

/// Pulls the database's code out of a storage error, handing the error back
/// where it is not a constraint violation carrying one.
pub fn extract_database_error_code<'a>(error: &'a StorageError) -> (r: Result<
    String,
    &'a StorageError,
>)
    ensures
        match r {
            Ok(s) => error matches StorageError::Database { code: Some(c) } && s@ == c@,
            Err(e) => {
                &&& e == error
                &&& !(*error matches StorageError::Database { code: Some(_) })
            },
        },
{
    let code = match error {
        StorageError::Database { code } => code,
        _ => {
            return Err(error);
        },
    };

    match code {
        None => Err(error),
        Some(code) => Ok(code.clone()),
    }
}

} // verus!
