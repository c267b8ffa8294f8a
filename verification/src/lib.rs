//! An escrow ledger for bounties: a depositor locks funds for a bounty, the
//! administrator releases them to a contributor, or, from the deadline on,
//! anyone has them refunded to the depositor.
//!
//! The ledger holds the records and decides what may happen. It moves no
//! funds and checks no signature itself: an accepted operation returns the
//! actions that the host has to carry out. What each operation does is
//! defined in `model`; `contract` and `batch` hold the operations; `laws`,
//! `custody` and `history` state what holds of them.

pub mod principal;
pub mod types;
pub mod effects;
pub mod model;
pub mod lemmas;
pub mod contract;
pub mod batch;
pub mod asset;
pub mod laws;
pub mod custody;
pub mod history;
