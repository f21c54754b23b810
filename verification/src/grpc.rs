//! The transport-facing layer: wire-shaped requests and replies, status
//! codes, and the controller that maps between them and the service.

pub mod checklist;
