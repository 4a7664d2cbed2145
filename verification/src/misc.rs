//! Small shared helpers: random token generation and the date field rule.

pub mod date_validation;
pub mod utils;
