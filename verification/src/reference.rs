//! Reference data: currencies and operation types.
pub mod cache;
