//! Building, signing and submitting a transaction that mints one uniquely
//! numbered token (a "solmap").
//!
//! The crate models the whole mint pipeline: resolving the priority-fee
//! policy, assembling the ordered instruction list, and stepping a mint
//! attempt through its states from building to confirmation or failure.

pub mod fee;
pub mod instructions;
pub mod ledger;
pub mod numerals;
pub mod pipeline;
pub mod report;
