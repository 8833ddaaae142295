//! Services of the application shell.
pub mod store;
pub mod proxy;
