//! The query-facing layer: the schema's object types and its stub resolvers.

pub mod checklist;
