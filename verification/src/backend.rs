//! The TorrServer back end: its own settings store and the manager of the
//! TorrServer process.
pub mod store;
pub mod torrserver;
pub mod install;
pub mod launch;
pub mod reply;
