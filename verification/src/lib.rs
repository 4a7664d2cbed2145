//! Verified core of a small record-keeping service for plantings ("crops")
//! and harvest lots ("batches").
//!
//! The library holds the data model, the validation rules, the referential
//! guards and the tracking-code generation; the HTTP surface and the durable
//! store live outside it and exchange plain values with it.

pub mod date;
pub mod errors;
pub mod messages;
pub mod misc;
pub mod models;
pub mod numeric;
pub mod repositories;
pub mod services;
pub mod text;

pub use date::Date;
