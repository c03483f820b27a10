//! Error types for encryption, decryption and key-provider operations.

use vstd::prelude::*;

verus! {

/// Errors raised by key-provider backends.
#[derive(Debug)]
pub enum KeyProviderError {
    /// The named key-encryption key does not exist.
    KekNotFound(String),
    /// Creating a key-encryption key failed.
    CreationFailed(String),
    /// No active key-encryption key is configured.
    NoActiveKek,
    /// Wrapping a data-encryption key failed.
    WrapFailed(String),
    /// Unwrapping a data-encryption key failed.
    UnwrapFailed(String),
    /// The blind-index pepper could not be retrieved.
    PepperUnavailable(String),
    /// An input/output operation failed.
    Io(String),
}

/// Main error type for encryption operations.
#[derive(Debug)]
pub enum Error {
    /// Encryption operation failed.
    EncryptionFailed(String),
    /// Decryption operation failed.
    DecryptionFailed(String),
    /// Authentication tag verification failed: the ciphertext may be
    /// corrupted or tampered with, or the supplied context is wrong.
    AuthenticationFailed,
    /// A key-provider operation failed.
    KeyProvider(KeyProviderError),
    /// The encryption header is malformed or truncated.
    InvalidHeader(String),
    /// Key derivation failed.
    KeyDerivation,
    /// The leading version byte of a ciphertext is not supported.
    UnsupportedVersion {
        /// The version byte found in the ciphertext.
        version: u8,
        /// The supported protocol version, printed.
        supported: String,
    },
    /// Blind index generation failed.
    IndexGenerationFailed(String),
    /// A deterministic-vault key does not have the required length.
    InvalidKeyLength {
        /// The required key length in bytes.
        expected: usize,
        /// The length of the key that was supplied.
        actual: usize,
    },
}

} // verus!
