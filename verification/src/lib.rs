//! Authorization core of a jointly owned wallet: a fixed set of owners, a
//! ledger of pending transfer requests, and unanimity-gated execution.

pub mod address_set;
pub mod error;
pub mod laws;
pub mod ledger;
pub mod model;
pub mod trace;
pub mod owners;
pub mod types;
