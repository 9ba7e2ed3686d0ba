//! The ledger: creating, changing and deleting an entry, each together
//! with the change to the running total of the budgets that it touches,
//! and listing entries. The functions take the values of a request as
//! they were read from its texts.

pub mod create;
pub mod delete;
pub mod listing;
pub mod steps;
pub mod update;
