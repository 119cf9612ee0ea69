//! A balance monitor for Zcash accounts: the registry of watched accounts and
//! addresses, the answers of its management API, and the bookkeeping of its
//! light-client scanner.

pub mod table;
pub mod store;
pub mod laws;
pub mod config;
pub mod outside;
pub mod scanner;
pub mod api;
pub mod metrics;
