//! The checklist domain: the data-access layer over the store, and the
//! service layer that re-expresses its errors for the controller.

pub mod model;
pub mod service;
