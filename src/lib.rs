//! A multisignature governance engine: proposals, votes, majority tallies,
//! one-shot expiry and exactly-once execution.

pub mod principal;
pub mod tally;
pub mod error;
pub mod models;
pub mod engine;
pub mod laws;
pub mod requests;
pub mod store;
