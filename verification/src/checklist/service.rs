//! The service layer: one-to-one wrappers around the data-access operations
//! that re-express each classified error in the service taxonomy and pass
//! every other failure through unchanged.

use vstd::prelude::*;

use crate::checklist::model::{Model, Todo, TodoList};
use crate::checklist::model::validation_message;
use crate::common::model::Error as ModelError;
use crate::common::service::{Error as ServiceError, Failure};
use crate::database::{with_list, with_todo, without_list, StoreView};
use crate::uid::Uid;

verus! {

/// The service layer over the data-access layer.
pub struct Service {
    model: Model,
}

impl View for Service {
    type V = StoreView;

    closed spec fn view(&self) -> StoreView {
        self.model@
    }
}

impl Service {
    /// The store's invariants hold.
    pub closed spec fn wf(self) -> bool {
        self.model.wf()
    }

    pub fn new(model: Model) -> (r: Service)
        requires
            model.wf(),
        ensures
            r.wf(),
            r@ == model@,
    {
        Service { model }
    }

    /// Adds a list; a conflict on the identifier comes back as this layer's
    /// `Conflict`, and nothing else can fail.
    pub fn add_list(&mut self, id: &Option<Uid>, name: &str) -> (r: Result<TodoList, Failure>)
        requires
            old(self).wf(),
        ensures
            final(self).wf(),
            match r {
                Ok(list) => {
                    &&& list.name@ == name@
                    &&& !old(self)@.lists.dom().contains(list.id)
                    &&& final(self)@ == with_list(old(self)@, list.id, name@)
                    &&& (*id matches Some(i) ==> list.id == i)
                },
                Err(f) => {
                    &&& f matches Failure::Service(e)
                    &&& e matches ServiceError::Conflict(i)
                    &&& old(self)@.lists.dom().contains(i)
                    &&& final(self)@ == old(self)@
                    &&& (*id matches Some(j) ==> i == j)
                },
            },
    {
        let result = self.model.create_list(id, name);

        match result {
            Ok(list) => Ok(list),
            Err(err) => Err(create_conflict_error(err)),
        }
    }

    /// Fetches a list; a missing one comes back as this layer's `NotFound`.
    pub fn get_list(&self, id: &Uid) -> (r: Result<TodoList, Failure>)
        requires
            self.wf(),
        ensures
            self@.lists.dom().contains(*id) ==> {
                &&& r matches Ok(list)
                &&& list.id == *id
                &&& list.name@ == self@.lists[*id]
            },
            !self@.lists.dom().contains(*id) ==> {
                &&& r matches Err(f)
                &&& f == Failure::Service(ServiceError::NotFound(*id))
            },
    {
        let result = self.model.get_list(id);

        match result {
            Ok(list) => Ok(list),
            Err(err) => Err(create_not_found_error(err)),
        }
    }

    /// Updates a list's name; a missing one comes back as this layer's
    /// `NotFound`.
    pub fn update_list(&mut self, id: &Uid, name: &str) -> (r: Result<TodoList, Failure>)
        requires
            old(self).wf(),
        ensures
            final(self).wf(),
            old(self)@.lists.dom().contains(*id) ==> {
                &&& r matches Ok(list)
                &&& list.id == *id
                &&& list.name@ == name@
                &&& final(self)@ == with_list(old(self)@, *id, name@)
            },
            !old(self)@.lists.dom().contains(*id) ==> {
                &&& r matches Err(f)
                &&& f == Failure::Service(ServiceError::NotFound(*id))
                &&& final(self)@ == old(self)@
            },
    {
        let result = self.model.update_list(id, name);

        match result {
            Ok(list) => Ok(list),
            Err(err) => Err(create_not_found_error(err)),
        }
    }

    /// Removes a list and its todos; a missing one comes back as this layer's
    /// `NotFound`.
    pub fn remove_list(&mut self, id: &Uid) -> (r: Result<(), Failure>)
        requires
            old(self).wf(),
        ensures
            final(self).wf(),
            old(self)@.lists.dom().contains(*id) ==> {
                &&& r is Ok
                &&& final(self)@ == without_list(old(self)@, *id)
            },
            !old(self)@.lists.dom().contains(*id) ==> {
                &&& r matches Err(f)
                &&& f == Failure::Service(ServiceError::NotFound(*id))
                &&& final(self)@ == old(self)@
            },
    {
        let result = self.model.destroy_list(id);

        match result {
            Ok(()) => Ok(()),
            Err(err) => Err(create_not_found_error(err)),
        }
    }

    /// Adds a todo under a list; a `list_id` that names no list comes back as
    /// this layer's `Validation`, never as a bare storage error.
    pub fn add_todo(&mut self, list_id: &Uid, description: &str) -> (r: Result<Todo, Failure>)
        requires
            old(self).wf(),
        ensures
            final(self).wf(),
            !old(self)@.lists.dom().contains(*list_id) ==> {
                &&& r matches Err(f)
                &&& f matches Failure::Service(e)
                &&& e matches ServiceError::Validation(m) && m@ == validation_message(*list_id)
                &&& final(self)@ == old(self)@
            },
            old(self)@.lists.dom().contains(*list_id) ==> match r {
                Ok(todo) => {
                    &&& todo.list_id == *list_id
                    &&& todo.description@ == description@
                    &&& todo.done == false
                    &&& !old(self)@.todos.dom().contains(todo.id)
                    &&& final(self)@ == with_todo(
                        old(self)@,
                        *list_id,
                        todo.id,
                        description@,
                        false,
                    )
                },
                Err(f) => {
                    &&& f matches Failure::Model(e)
                    &&& e matches ModelError::Storage(_)
                    &&& final(self)@ == old(self)@
                },
            },
    {
        let result = self.model.create_todo(list_id, description);

        match result {
            Ok(todo) => Ok(todo),
            Err(err) => Err(create_validation_error(err)),
        }
    }
}

/// Re-expresses the data-access layer's `Conflict` in the service taxonomy,
/// passing every other error through.
pub fn create_conflict_error(error: ModelError) -> (r: Failure)
    ensures
        error matches ModelError::Conflict(id) ==> r == Failure::Service(
            ServiceError::Conflict(id),
        ),
        !(error matches ModelError::Conflict(_)) ==> r == Failure::Model(error),
{
    match error {
        ModelError::Conflict(id) => Failure::Service(ServiceError::Conflict(id)),
        _ => Failure::Model(error),
    }
}

/// Re-expresses the data-access layer's `NotFound` in the service taxonomy,
/// passing every other error through.
pub fn create_not_found_error(error: ModelError) -> (r: Failure)
    ensures
        error matches ModelError::NotFound(id) ==> r == Failure::Service(
            ServiceError::NotFound(id),
        ),
        !(error matches ModelError::NotFound(_)) ==> r == Failure::Model(error),
{
    match error {
        ModelError::NotFound(id) => Failure::Service(ServiceError::NotFound(id)),
        _ => Failure::Model(error),
    }
}

/// Re-expresses the data-access layer's `Validation` in the service taxonomy,
/// passing every other error through.
pub fn create_validation_error(error: ModelError) -> (r: Failure)
    ensures
        error matches ModelError::Validation(m) ==> r matches Failure::Service(e) && e
            == ServiceError::Validation(m),
        !(error matches ModelError::Validation(_)) ==> r == Failure::Model(error),
{
    match error {
        ModelError::Validation(m) => Failure::Service(ServiceError::Validation(m)),
        _ => Failure::Model(error),
    }
}

} // verus!
