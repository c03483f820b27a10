//! Field-level encryption library with envelope encryption, blind indexes,
//! and pluggable key-management backends.
//!
//! The library encrypts individual values under envelope encryption
//! (a fresh data-encryption key per value, wrapped by a long-lived
//! key-encryption key), offers a deterministic encryption path for
//! equality-searchable fields, and derives blind indexes for equality
//! lookups over ciphertext.  Encryption contexts (tenant, table, column,
//! version) drive domain separation throughout.

pub mod blind_index;
pub mod context;
pub mod crypto;
pub mod deterministic;
pub mod error;
pub mod header;
pub mod kdf;
pub mod key_provider;
pub mod memory_provider;
pub mod secret;
pub mod util;
pub mod vault;
