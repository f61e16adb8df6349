//! A transaction engine for per-client accounts: deposits, withdrawals and
//! the dispute / resolve / chargeback lifecycle, with every balance held as
//! an exact fixed-point amount.
pub mod domain;
pub mod engine;
pub mod laws;
