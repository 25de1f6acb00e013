//! The rules behind the command line.

pub mod agent;
pub mod backend_login;
pub mod capacity;
pub mod client;
pub mod commands;
pub mod components;
pub mod device_backup;
pub mod device_drive;
pub mod diagnostics;
pub mod disk;
pub mod drive_gate;
pub mod gate_reads;
pub mod host;
pub mod ipc;
pub mod maintenance;
pub mod offload;
pub mod recovery;
pub mod repository;
pub mod service;
pub mod simulate;
pub mod token_agent;
pub mod version;
pub mod volume;
