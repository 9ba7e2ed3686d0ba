//! Statistics over the ledger within a window of dates. They are computed
//! from the ledger entries and never from the running totals of the
//! budgets.

pub mod breakdown;
pub mod dashboard;
pub mod recent;
pub mod report;
pub mod totals;
pub mod window;
