//! A personal daily-habit ledger: a fixed, ordered list of habits ("bubbles"),
//! each with a status per calendar day, together with the date arithmetic that
//! picks the days a view or an update refers to and the merge that folds a
//! peer's updates into the stored ledger.

pub mod bubble;
pub mod client;
pub mod date;
pub mod error;
pub mod grid;
pub mod ledger;
pub mod status;
pub mod web;
