//! Administrative data exchange.

pub mod sql_value;
