//! The schema's object types and resolvers: a stub query that reads a todo
//! back under a fixed name, and a stub mutation that echoes its input.

use vstd::prelude::*;

use vstd::string::StringExecFns;

verus! {

/// What a resolver runs against; the stub schema needs nothing.
pub struct Context {}

/// A todo entry as the schema presents it.
pub struct Todo {
    pub id: String,
    pub name: String,
}

/// A todo entry as the schema takes it in.
pub struct NewTodo {
    pub id: String,
    pub name: String,
}

/// The schema's query root.
pub struct Query {}

/// The schema's mutation root.
pub struct Mutation {}

impl Query {
    /// Reads a todo back: the given identifier under the fixed name.
    pub fn todo(_context: &Context, id: String) -> (t: Todo)
        ensures
            t.id@ == id@,
            t.name@ == "test"@,
    {
        Todo { id, name: String::from_str("test") }
    }
}

impl Mutation {
    /// Echoes the todo it is handed.
    pub fn add_todo(_context: &Context, id: String, name: String) -> (t: Todo)
        ensures
            t.id@ == id@,
            t.name@ == name@,
    {
        Todo { id, name }
    }
}

} // verus!
