//! The operations as requests name them: users by the text of an
//! identifier, dates by their texts, names as they were typed.

pub mod auth;
pub mod budget;
pub mod kategori;
pub mod profile;
pub mod statistik;
pub mod transaksi;
pub mod user;
