//! Verified core of the MirageSSD storage tools.

pub mod bytes;
pub mod cli;
pub mod config;
pub mod crypto;
pub mod error;
pub mod ids;
pub mod laws;
pub mod text;
