//! A checklist service: named todo lists, each holding todo items, kept in a
//! relational store with unique identifiers and a foreign key from todos to
//! their list. The store, the data-access layer, the service layer and the
//! request controller are verified; identifier generation, parsing and
//! rendering rely on the `uuid` crate through trusted wrappers.

pub mod checklist;
pub mod common;
pub mod database;
pub mod graphql;
pub mod grpc;
pub mod laws;
pub mod uid;
