//! In-memory stores for the two records, with unique-id and unique-code
//! invariants in place of the relational schema's constraints.

pub mod batch_repository;
pub mod crop_repository;
