//! Versioned, secret-free service configuration: the model, the pure
//! validation rules and the developer-only environment overrides.

pub mod load;
pub mod model;
pub mod validate;
