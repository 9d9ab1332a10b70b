//! Storefront adapters: the parts of the store boundary that are pure
//! parsing live here; binary detection and process control stay outside
//! the library.

pub mod steam;
