//! Credential lifecycle and profile-update engine of a small identity backend.
//!
//! The library decides: it validates requests, hashes and checks passwords,
//! mints bearer tokens, and builds the parameterised statements that the
//! profile store runs. Talking to the store and to HTTP clients is left to
//! the caller, which hands the store's answers back as plain values.
pub mod auth;
pub mod profile;
pub mod store;
pub mod validate;
