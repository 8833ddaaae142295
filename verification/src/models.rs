//! Shared data types.
pub mod common;
