//! Deterministic encryption with AES-256-SIV for equality queries.
//!
//! AES-SIV is a misuse-resistant authenticated encryption mode; with
//! the fixed all-zero nonce used here, encryption is a pure function of
//! (key, plaintext, context), so identical inputs always produce
//! byte-identical ciphertext and equality can be tested directly on
//! stored ciphertext.  The context's canonical string is bound as
//! associated data, so different domains give different ciphertexts
//! and decryption under a wrong context fails authentication.
//!
//! Deterministic encryption reveals equality patterns; it is meant
//! only for fields that need equality queries.

use vstd::prelude::*;

use crate::context::{spec_encryption_canonical_bytes, EncryptionContext};
use crate::crypto::{aes256_siv_decrypt, aes256_siv_encrypt, aes256_siv_seal};
use crate::error::Error;
use crate::secret::SecretBytes;

verus! {

/// Deterministic vault, keyed directly with a 64-byte AES-256-SIV key.
pub struct DeterministicVault {
    key: SecretBytes,
}

impl DeterministicVault {
    #[verifier::type_invariant]
    spec fn type_inv(self) -> bool {
        self.key@.len() == 64
    }

    /// The vault's key bytes.
    pub closed spec fn spec_key(&self) -> Seq<u8> {
        self.key@
    }

    /// Creates a deterministic vault around a 64-byte key.
    ///
    /// Fails with `InvalidKeyLength` exactly when the key is not 64
    /// bytes, reporting the expected and actual lengths.
    pub fn new(key: SecretBytes) -> (r: Result<Self, Error>)
        ensures
            key@.len() == 64 ==> (r matches Ok(v) && v.spec_key() == key@),
            key@.len() != 64 ==> (r matches Err(e) && e matches Error::InvalidKeyLength {
                expected,
                actual,
            } && expected == 64usize && actual == key@.len()),
    {
        let n = key.len();
        if n != 64 {
            return Err(Error::InvalidKeyLength { expected: 64, actual: n });
        }
        Ok(DeterministicVault { key })
    }

    /// Encrypts a plaintext deterministically under this vault's key,
    /// with the context's canonical string as associated data.
    ///
    /// The result is a pure function of (key, plaintext, context):
    /// identical inputs always give byte-identical ciphertext, which is
    /// 16 bytes (the synthetic IV) longer than the plaintext.
    pub fn encrypt(&self, plaintext: &[u8], context: &EncryptionContext) -> (r: Result<
        Vec<u8>,
        Error,
    >)
        ensures
            r matches Ok(c) && c@ == aes256_siv_seal(
                self.spec_key(),
                spec_encryption_canonical_bytes(context@),
                plaintext@,
            ),
            r matches Ok(c) && c@.len() == plaintext@.len() + 16,
    {
        proof {
            use_type_invariant(self);
        }
        let aad = context.canonical_string();
        Ok(
            aes256_siv_encrypt(
                self.key.expose_secret().as_slice(),
                aad.as_str().as_bytes(),
                plaintext,
            ),
        )
    }

    /// Decrypts a ciphertext produced by [`DeterministicVault::encrypt`]
    /// with the same key and context.
    ///
    /// On success the result is the unique plaintext whose encryption
    /// under this key and context is the given ciphertext; corruption
    /// and a wrong context are indistinguishable and fail with
    /// `DecryptionFailed`, exactly when no such plaintext exists.
    pub fn decrypt(&self, ciphertext: &[u8], context: &EncryptionContext) -> (r: Result<
        Vec<u8>,
        Error,
    >)
        ensures
            match r {
                Ok(p) => {
                    &&& ciphertext@ == aes256_siv_seal(
                        self.spec_key(),
                        spec_encryption_canonical_bytes(context@),
                        p@,
                    )
                    &&& p@.len() + 16 == ciphertext@.len()
                    &&& forall|q: Seq<u8>|
                        aes256_siv_seal(
                            self.spec_key(),
                            spec_encryption_canonical_bytes(context@),
                            q,
                        ) == ciphertext@ ==> q == p@
                },
                Err(e) => {
                    &&& e is DecryptionFailed
                    &&& forall|q: Seq<u8>|
                        aes256_siv_seal(
                            self.spec_key(),
                            spec_encryption_canonical_bytes(context@),
                            q,
                        ) != ciphertext@
                },
            },
    {
        proof {
            use_type_invariant(self);
        }
        let aad = context.canonical_string();
        match aes256_siv_decrypt(
            self.key.expose_secret().as_slice(),
            aad.as_str().as_bytes(),
            ciphertext,
        ) {
            Some(p) => Ok(p),
            None => Err(Error::DecryptionFailed("AES-SIV decryption failed".to_owned())),
        }
    }
}

impl Clone for DeterministicVault {
    /// A cloned vault holds the same key and produces the same
    /// deterministic output.
    fn clone(&self) -> (r: Self)
        ensures
            r.spec_key() == self.spec_key(),
    {
        proof {
            use_type_invariant(self);
        }
        DeterministicVault { key: self.key.clone() }
    }
}

/// Deterministic encryption is deterministic: two ciphertexts produced
/// from the same key, associated data and plaintext are byte-identical.
pub proof fn lemma_deterministic_encrypt_deterministic(
    key: Seq<u8>,
    aad: Seq<u8>,
    plaintext: Seq<u8>,
    c1: Seq<u8>,
    c2: Seq<u8>,
)
    requires
        c1 == aes256_siv_seal(key, aad, plaintext),
        c2 == aes256_siv_seal(key, aad, plaintext),
    ensures
        c1 == c2,
{
}

/// Deterministic round trip: a decryption result for a ciphertext that
/// encrypt produced from `plaintext`, under the same key and context,
/// is `plaintext` itself.  The hypotheses are exactly what
/// [`DeterministicVault::encrypt`] and [`DeterministicVault::decrypt`]
/// ensure about their results.
pub proof fn lemma_deterministic_round_trip(
    key: Seq<u8>,
    aad: Seq<u8>,
    plaintext: Seq<u8>,
    ciphertext: Seq<u8>,
    decrypted: Seq<u8>,
)
    requires
        ciphertext == aes256_siv_seal(key, aad, plaintext),
        aes256_siv_seal(key, aad, decrypted) == ciphertext,
        forall|q: Seq<u8>| aes256_siv_seal(key, aad, q) == ciphertext ==> q == decrypted,
    ensures
        decrypted == plaintext,
{
    assert(aes256_siv_seal(key, aad, plaintext) == ciphertext);
}

} // verus!
