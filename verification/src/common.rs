//! The error taxonomies of the two layers: the data-access layer's, which
//! carries storage errors through, and the service layer's, which the
//! controller presents to callers.

pub mod model;
pub mod service;
