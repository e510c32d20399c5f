//! Core banking rules: reference and product caches, account numbering,
//! deposit and loan ledgers, transaction posting and the outbox publisher.
use vstd::prelude::*;

pub mod account;
pub mod calendar;
pub mod client;
pub mod common;
pub mod decimal;
pub mod deposit;
pub mod interest;
pub mod loan;
pub mod numbering;
pub mod product;
pub mod publisher;
pub mod reference;
pub mod request;
pub mod table;
pub mod text;
pub mod transaction;

verus! {

} // verus!
