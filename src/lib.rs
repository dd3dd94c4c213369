//! Core of a personal budgeting backend: the records of a user's budget, the
//! validation of what clients send, the guard that keeps closed months frozen,
//! the month aggregator, and an in-memory record store that runs every core
//! operation as one atomic step.

pub mod clock;
pub mod error;
pub mod guard;
pub mod ledger;
pub mod lifecycle;
pub mod model;
pub mod payload;
pub mod records;
pub mod summary;
pub mod templates;
