//! What holds of the operations, stated of what goes into a call and what comes
//! out of it.

pub mod arguments;
pub mod backup;
pub mod characters;
pub mod commands;
pub mod components;
pub mod config;
pub mod crypto;
pub mod diagnostics;
pub mod drive;
pub mod errors;
pub mod exclusions;
pub mod gate;
pub mod login;
pub mod offload;
pub mod places;
pub mod service;
pub mod text;
pub mod tools;
pub mod volume;
