//! Key-provider abstraction.
//!
//! A key provider supplies key-encryption keys (KEKs), wraps and
//! unwraps data-encryption keys (DEKs), and supplies the blind-index
//! pepper.  Concrete backends (an in-memory store, a file-backed store,
//! a remote key-management service) implement this trait; the vault
//! only relies on the contract stated here.
//!
//! The contract is expressed through two specification functions that
//! every implementation defines: `spec_unwrap`, the DEK that unwrapping
//! a given (KEK id, wrapped bytes) pair yields, and `spec_pepper`, the
//! pepper the provider holds.  Wrapping promises that what it returns
//! unwraps to the original DEK; unwrapping promises to return exactly
//! that value.  A provider may always fail instead (a missing key, a
//! storage error), but it can never succeed with a wrong answer.

use vstd::prelude::*;

use crate::error::KeyProviderError;
use crate::secret::SecretBytes;

verus! {

/// Key-management operations for encryption and decryption.
///
/// Implementations must be safe for concurrent use; all operations
/// take `&self`.
pub trait KeyProvider: Send + Sync + Sized {
    /// The DEK that unwrapping `wrapped` under the KEK named `kek_id`
    /// yields, or `None` when no DEK can ever be recovered from that
    /// pair.  The default leaves every pair unrecoverable; verified
    /// implementations override it with their wrapping scheme.
    open spec fn spec_unwrap(&self, kek_id: Seq<char>, wrapped: Seq<u8>) -> Option<Seq<u8>> {
        None
    }

    /// The pepper this provider holds for blind indexes, or `None`
    /// when the backend offers no blind-index support.  The default is
    /// no pepper; verified implementations override it.
    open spec fn spec_pepper(&self) -> Option<Seq<u8>> {
        None
    }

    /// Creates and persists a new KEK and returns its identifier.
    ///
    /// Fails with `CreationFailed` on storage or generation errors.
    fn create_kek(&self) -> (r: Result<String, KeyProviderError>);

    /// Returns the identifier of the active KEK.
    ///
    /// Fails with `NoActiveKek` when none is configured.
    fn current_kek_id(&self) -> (r: Result<String, KeyProviderError>);

    /// Wraps (encrypts) a DEK under the named KEK.
    ///
    /// On success the returned bytes unwrap, under the same KEK id, to
    /// exactly the DEK that was passed in.
    fn wrap_dek(&self, kek_id: &str, dek: &[u8]) -> (r: Result<Vec<u8>, KeyProviderError>)
        ensures
            r matches Ok(w) ==> self.spec_unwrap(kek_id@, w@) == Some(dek@),
    ;

    /// Unwraps (decrypts) a wrapped DEK.
    ///
    /// On success the result is exactly the DEK that `spec_unwrap`
    /// assigns to this (KEK id, wrapped bytes) pair: unwrapping never
    /// succeeds with a wrong value.
    fn unwrap_dek(&self, kek_id: &str, wrapped_dek: &[u8]) -> (r: Result<
        SecretBytes,
        KeyProviderError,
    >)
        ensures
            r matches Ok(d) ==> self.spec_unwrap(kek_id@, wrapped_dek@) == Some(d@),
    ;

    /// Returns the pepper for blind-index generation, or `None` when
    /// the backend has none configured.
    fn get_pepper(&self) -> (r: Result<Option<SecretBytes>, KeyProviderError>)
        ensures
            r matches Ok(p) ==> (match p {
                Some(s) => self.spec_pepper() == Some(s@),
                None => self.spec_pepper() is None,
            }),
    ;
}

} // verus!
