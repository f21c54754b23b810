//! The data-access layer's errors: a creation that hit an identifier already
//! in use, a lookup that found nothing, a request that broke a referential
//! rule, or a storage failure passed through unclassified.

use vstd::prelude::*;

use crate::database::StorageError;
use crate::uid::{hyphenated, hyphenated_string, Uid};
use vstd::string::StringExecFns;

verus! {

/// What the data-access layer fails with.
#[derive(Debug)]
pub enum Error {
    Conflict(Uid),
    NotFound(Uid),
    Validation(String),
    Storage(StorageError),
}

/// The text of a conflict error.
pub open spec fn conflict_message(id: Uid) -> Seq<char> {
    "'"@ + hyphenated(id.value) + "' already in collection"@
}

/// The text of a not-found error.
pub open spec fn not_found_message(id: Uid) -> Seq<char> {
    "'"@ + hyphenated(id.value) + "' not found in collection"@
}

impl Error {
    /// The error rendered for a reader, the identifier in hyphenated form.
    pub fn message(&self) -> (r: String)
        ensures
            *self matches Error::Conflict(id) ==> r@ == conflict_message(id),
            *self matches Error::NotFound(id) ==> r@ == not_found_message(id),
            *self matches Error::Validation(m) ==> r@ == m@,
            *self matches Error::Storage(_) ==> r@ == "storage error"@,
    {
        match self {
            Error::Conflict(id) => {
                let h = hyphenated_string(id);
                String::from_str("'").concat(h.as_str()).concat("' already in collection")
            },
            Error::NotFound(id) => {
                let h = hyphenated_string(id);
                String::from_str("'").concat(h.as_str()).concat("' not found in collection")
            },
            Error::Validation(m) => m.clone(),
            Error::Storage(_) => String::from_str("storage error"),
        }
    }
}

} // verus!
