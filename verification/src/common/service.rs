//! The service layer's errors: the taxonomy the controller presents, plus the
//! failure value its operations return, which either carries one of these or
//! passes a data-access error through untouched.

use vstd::prelude::*;

use crate::common::model::{conflict_message, not_found_message};
use crate::common::model::Error as ModelError;
use crate::uid::{hyphenated_string, Uid};
use vstd::string::StringExecFns;

verus! {

/// What the service layer fails with.
#[derive(Debug)]
pub enum Error {
    Conflict(Uid),
    NotFound(Uid),
    Validation(String),
}

/// What a service operation returns on failure: its own error where the
/// data-access error was classified, or that error passed through.
#[derive(Debug)]
pub enum Failure {
    Service(Error),
    Model(ModelError),
}

impl Error {
    /// The error rendered for a reader, the identifier in hyphenated form.
    pub fn message(&self) -> (r: String)
        ensures
            *self matches Error::Conflict(id) ==> r@ == conflict_message(id),
            *self matches Error::NotFound(id) ==> r@ == not_found_message(id),
            *self matches Error::Validation(m) ==> r@ == m@,
    {
        match self {
            Error::Conflict(id) => {
                let h = hyphenated_string(id);
                String::from_str("'").concat(h.as_str()).concat("' already in collection")
            },
            Error::NotFound(id) => {
                let h = hyphenated_string(id);
                String::from_str("'").concat(h.as_str()).concat("' not found in collection")
            },
            Error::Validation(m) => m.clone(),
        }
    }
}

} // verus!
