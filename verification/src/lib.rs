//! A personal-finance ledger: users record transactions against
//! categories, set a budget per category, and read statistics of their
//! spending.
//!
//! The running total `spent` of a budget follows the ledger: every
//! change to a ledger entry changes the totals of the budgets that it
//! touches in the same unit of work ([`ledger`]). The statistics are
//! computed from the ledger entries within a window of dates, and never
//! from the running totals ([`analytics`]).
//!
//! The records live in a [`database::Database`] in memory. The functions
//! of [`ledger`], [`budgets`] and [`analytics`] take the values of a
//! request as plain values; those of [`routes`] take them as the texts of
//! a request and read them first. Dates are read and computed by `chrono`
//! ([`tanggal`]), user identifiers by `uuid` ([`teks`]).

pub mod analytics;
pub mod budgets;
pub mod database;
pub mod error;
pub mod ledger;
pub mod models;
pub mod routes;
pub mod tanggal;
pub mod teks;
