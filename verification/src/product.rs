//! Banking products: their catalogue cache and the rules for numbering
//! accounts, checking eligibility and pricing rates.
pub mod cache;
pub mod rules;
pub mod service;
