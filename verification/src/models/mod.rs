//! The records that the ledger stores and the requests and responses of its
//! operations.

pub mod auth;
pub mod budget;
pub mod kategori;
pub mod profile;
pub mod statistik;
pub mod transaksi;
