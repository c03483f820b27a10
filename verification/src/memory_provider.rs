//! An in-memory key provider.
//!
//! The provider holds one KEK (and optionally a pepper) in memory and
//! wraps DEKs with ChaCha20-Poly1305 under a random nonce, storing the
//! nonce in front of the ciphertext.  It is verified against the
//! [`KeyProvider`](crate::key_provider::KeyProvider) contract: whatever
//! `wrap_dek` returns unwraps to the original DEK, and `unwrap_dek`
//! never succeeds with a wrong value.  It is meant for tests and for
//! embedding a fixed key; it cannot create or rotate KEKs.

use vstd::prelude::*;

use crate::crypto::{
    chacha20poly1305_decrypt, chacha20poly1305_encrypt, chacha20poly1305_seal, chacha_len_ok,
    random_bytes,
};
use crate::error::KeyProviderError;
use crate::key_provider::KeyProvider;
use crate::secret::SecretBytes;
use crate::util::{push_bytes, str_eq};

verus! {

/// A key provider holding a single KEK, and optionally a pepper, in
/// memory.
pub struct MemoryKeyProvider {
    kek_id: String,
    kek: SecretBytes,
    pepper: Option<SecretBytes>,
}

impl MemoryKeyProvider {
    #[verifier::type_invariant]
    spec fn type_inv(self) -> bool {
        self.kek@.len() == 32
    }

    /// The identifier of the provider's single KEK.
    pub closed spec fn spec_kek_id(&self) -> Seq<char> {
        self.kek_id@
    }

    /// The bytes of the provider's single KEK.
    pub closed spec fn spec_kek(&self) -> Seq<u8> {
        self.kek@
    }

    /// Creates a provider around one 32-byte KEK, with no pepper.
    ///
    /// Fails with `CreationFailed` exactly when the KEK is not 32
    /// bytes.
    pub fn new(kek_id: &str, kek: SecretBytes) -> (r: Result<Self, KeyProviderError>)
        ensures
            kek@.len() == 32 ==> (r matches Ok(p) && p.spec_kek_id() == kek_id@ && p.spec_kek()
                == kek@ && p.spec_pepper() is None),
            kek@.len() != 32 ==> (r matches Err(e) && e is CreationFailed),
    {
        if kek.len() != 32 {
            return Err(KeyProviderError::CreationFailed("KEK must be 32 bytes".to_owned()));
        }
        Ok(MemoryKeyProvider { kek_id: kek_id.to_owned(), kek, pepper: None })
    }

    /// Sets the blind-index pepper.
    pub fn with_pepper(self, pepper: SecretBytes) -> (r: Self)
        ensures
            r.spec_pepper() == Some(pepper@),
            r.spec_kek_id() == self.spec_kek_id(),
            r.spec_kek() == self.spec_kek(),
            forall|kek_id: Seq<char>, w: Seq<u8>| #[trigger]
                r.spec_unwrap(kek_id, w) == self.spec_unwrap(kek_id, w),
    {
        proof {
            use_type_invariant(&self);
        }
        MemoryKeyProvider { pepper: Some(pepper), ..self }
    }
}

impl KeyProvider for MemoryKeyProvider {
    /// A wrapped DEK is the wrap nonce followed by the ChaCha20-Poly1305
    /// ciphertext of the DEK under this provider's KEK; unwrapping
    /// recovers the unique DEK that seals to that ciphertext.
    closed spec fn spec_unwrap(&self, kek_id: Seq<char>, wrapped: Seq<u8>) -> Option<Seq<u8>> {
        if kek_id == self.kek_id@ && wrapped.len() >= 12 && (exists|d: Seq<u8>|
            valid_memory_wrap(self.kek@, wrapped, d)) {
            Some(choose|d: Seq<u8>| valid_memory_wrap(self.kek@, wrapped, d))
        } else {
            None
        }
    }

    closed spec fn spec_pepper(&self) -> Option<Seq<u8>> {
        match self.pepper {
            Some(p) => Some(p@),
            None => None,
        }
    }

    /// This provider holds a fixed KEK and cannot create new ones:
    /// the call always fails with `CreationFailed`.
    fn create_kek(&self) -> (r: Result<String, KeyProviderError>)
        ensures
            r matches Err(e) && e is CreationFailed,
    {
        Err(KeyProviderError::CreationFailed("the in-memory provider holds a fixed KEK".to_owned()))
    }

    /// Always succeeds with the identifier of the single KEK.
    fn current_kek_id(&self) -> (r: Result<String, KeyProviderError>)
        ensures
            r matches Ok(id) && id@ == self.spec_kek_id(),
    {
        Ok(self.kek_id.clone())
    }

    /// Succeeds exactly when the KEK id matches and the DEK is within
    /// the cipher's length limit; the wrapped bytes are 28 longer than
    /// the DEK (a 12-byte nonce and a 16-byte tag) and unwrap to it.
    /// An unknown KEK id fails with `KekNotFound`, an over-long DEK
    /// with `WrapFailed`.
    fn wrap_dek(&self, kek_id: &str, dek: &[u8]) -> (r: Result<Vec<u8>, KeyProviderError>)
        ensures
            kek_id@ != self.spec_kek_id() ==> (r matches Err(e) && e is KekNotFound),
            (kek_id@ == self.spec_kek_id() && !chacha_len_ok(dek@.len())) ==> (r matches Err(e)
                && e is WrapFailed),
            (kek_id@ == self.spec_kek_id() && chacha_len_ok(dek@.len())) ==> (r matches Ok(w)
                && self.spec_unwrap(kek_id@, w@) == Some(dek@) && w@.len() == dek@.len() + 28),
    {
        proof {
            use_type_invariant(self);
        }
        if !str_eq(kek_id, self.kek_id.as_str()) {
            return Err(KeyProviderError::KekNotFound(kek_id.to_owned()));
        }
        if !((dek.len() as u64) < 0x3FFFFFFFC0u64) {
            return Err(KeyProviderError::WrapFailed("DEK too long".to_owned()));
        }
        let nonce = random_bytes(12);
        let aad: Vec<u8> = Vec::new();
        let ct = chacha20poly1305_encrypt(
            self.kek.expose_secret().as_slice(),
            nonce.as_slice(),
            aad.as_slice(),
            dek,
        );
        let mut wrapped = nonce;
        push_bytes(&mut wrapped, ct.as_slice());
        proof {
            assert(wrapped@.subrange(0, 12) =~= wrapped@.take(12));
            assert(wrapped@.take(12) =~= nonce@);
            assert(wrapped@.skip(12) =~= ct@);
            assert(valid_memory_wrap(self.kek@, wrapped@, dek@));
            let d = choose|d: Seq<u8>| valid_memory_wrap(self.kek@, wrapped@, d);
            assert(d == dek@);
        }
        Ok(wrapped)
    }

    /// Succeeds exactly on wraps of some DEK under the matching KEK
    /// id, returning that DEK; an unknown KEK id fails with
    /// `KekNotFound`, anything else with `UnwrapFailed`.
    fn unwrap_dek(&self, kek_id: &str, wrapped_dek: &[u8]) -> (r: Result<
        SecretBytes,
        KeyProviderError,
    >)
        ensures
            kek_id@ != self.spec_kek_id() ==> (r matches Err(e) && e is KekNotFound),
            self.spec_unwrap(kek_id@, wrapped_dek@) matches Some(d) ==> (r matches Ok(s) && s@
                == d),
            (kek_id@ == self.spec_kek_id() && self.spec_unwrap(kek_id@, wrapped_dek@) is None)
                ==> (r matches Err(e) && e is UnwrapFailed),
    {
        proof {
            use_type_invariant(self);
        }
        if !str_eq(kek_id, self.kek_id.as_str()) {
            return Err(KeyProviderError::KekNotFound(kek_id.to_owned()));
        }
        if wrapped_dek.len() < 12 {
            return Err(KeyProviderError::UnwrapFailed("wrapped DEK too short".to_owned()));
        }
        let nonce = vstd::slice::slice_subrange(wrapped_dek, 0, 12);
        let ct = vstd::slice::slice_subrange(wrapped_dek, 12, wrapped_dek.len());
        let aad: Vec<u8> = Vec::new();
        match chacha20poly1305_decrypt(
            self.kek.expose_secret().as_slice(),
            nonce,
            aad.as_slice(),
            ct,
        ) {
            Some(dek) => {
                proof {
                    assert(wrapped_dek@.subrange(0, 12) =~= wrapped_dek@.take(12));
                    assert(wrapped_dek@.subrange(12, wrapped_dek@.len() as int)
                        =~= wrapped_dek@.skip(12));
                    assert(valid_memory_wrap(self.kek@, wrapped_dek@, dek@));
                    let d = choose|d: Seq<u8>| valid_memory_wrap(self.kek@, wrapped_dek@, d);
                    assert(d == dek@);
                }
                Ok(SecretBytes::new(dek))
            },
            None => Err(KeyProviderError::UnwrapFailed("DEK authentication failed".to_owned())),
        }
    }

    /// Always succeeds, returning the configured pepper if any.
    fn get_pepper(&self) -> (r: Result<Option<SecretBytes>, KeyProviderError>)
        ensures
            r is Ok,
    {
        match &self.pepper {
            Some(p) => Ok(Some(p.clone())),
            None => Ok(None),
        }
    }
}

/// Whether `wrapped` is a wrap of the DEK `d` under `kek`: a 12-byte
/// nonce followed by the ChaCha20-Poly1305 sealing of `d` with that
/// nonce, empty associated data, and `kek` as the key.
pub open spec fn valid_memory_wrap(kek: Seq<u8>, wrapped: Seq<u8>, d: Seq<u8>) -> bool {
    &&& d.len() + 16 + 12 == wrapped.len()
    &&& chacha_len_ok(d.len())
    &&& wrapped.skip(12) == chacha20poly1305_seal(kek, wrapped.take(12), Seq::empty(), d)
}

} // verus!
