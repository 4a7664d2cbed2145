//! The two records the service manages and their field validation.

pub mod batch;
pub mod crop;
