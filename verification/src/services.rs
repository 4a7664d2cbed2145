//! The service layer: tracking-code generation, the date-ordering rules and
//! the in-use guard, over the stores.

pub mod batch_service;
pub mod crop_service;
