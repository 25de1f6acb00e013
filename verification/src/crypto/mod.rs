//! Repository cryptography: page sealing, commit signatures, key records and
//! portable recovery envelopes.

pub mod aead;
pub mod dpapi;
pub mod durable_file;
pub mod file_acl;
pub mod key_id;
pub mod key_store;
pub mod primitives;
pub mod recovery;
pub mod repository_key_store;
pub mod secret;
pub mod signing;
