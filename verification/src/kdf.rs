//! Key derivation.
//!
//! A data-encryption key (DEK) can either be derived from a
//! key-encryption key (KEK) and an encryption context with HKDF-SHA256
//! — deterministic, for callers that prefer derivation over envelope
//! wrapping — or generated fresh from the system's randomness source,
//! as the envelope path does once per encryption.

use vstd::prelude::*;

use crate::context::{spec_encryption_canonical_bytes, EncryptionContext};
use crate::crypto::{hkdf_sha256_derive32, hkdf_sha256_expand32, random_bytes};
use crate::error::Error;
use crate::secret::SecretBytes;

verus! {

/// Standard DEK size in bytes (256 bits).
pub const DEK_SIZE: usize = 32;

/// The DEK derived from a KEK and a context: the first 32 bytes of
/// HKDF-SHA256-Expand with the KEK itself as the pseudorandom key (no
/// extract step, no salt) and the context's canonical string as
/// `info`.
pub open spec fn spec_derived_dek(kek: Seq<u8>, context: crate::context::EncryptionContextView) -> Seq<u8> {
    hkdf_sha256_expand32(kek, spec_encryption_canonical_bytes(context))
}

/// Derives a data-encryption key from a KEK using HKDF-SHA256-Expand.
///
/// The KEK itself is the pseudorandom key — there is no extract step
/// and no salt — and the context's canonical string is the `info`
/// parameter, so DEKs derived for different domains (tenant, table,
/// column or version) are unrelated even under the same KEK.  The
/// derivation is deterministic in the KEK bytes and the context, and
/// succeeds for every KEK of at least 32 bytes; a shorter KEK cannot
/// serve as a pseudorandom key and fails with `KeyDerivation`.
pub fn derive_dek(kek: &SecretBytes, context: &EncryptionContext) -> (r: Result<
    SecretBytes,
    Error,
>)
    ensures
        kek@.len() >= 32 ==> (r matches Ok(dek) && dek@ == spec_derived_dek(kek@, context@)
            && dek@.len() == DEK_SIZE),
        kek@.len() < 32 ==> (r matches Err(e) && e is KeyDerivation),
{
    if kek.len() < 32 {
        return Err(Error::KeyDerivation);
    }
    let info = context.canonical_string();
    let okm = hkdf_sha256_derive32(kek.expose_secret().as_slice(), info.as_str().as_bytes());
    Ok(SecretBytes::new(okm))
}

/// Generates a random data-encryption key for envelope encryption.
///
/// The key must be wrapped by a KEK before it is stored.  Nothing is
/// assumed of the bytes beyond their number.
pub fn generate_dek() -> (r: SecretBytes)
    ensures
        r@.len() == DEK_SIZE,
{
    SecretBytes::new(random_bytes(DEK_SIZE))
}

/// Key derivation is deterministic: two DEKs derived from the same KEK
/// bytes and the same context are equal.
pub proof fn lemma_derive_dek_deterministic(
    kek: Seq<u8>,
    context: crate::context::EncryptionContextView,
    dek1: Seq<u8>,
    dek2: Seq<u8>,
)
    requires
        dek1 == spec_derived_dek(kek, context),
        dek2 == spec_derived_dek(kek, context),
    ensures
        dek1 == dek2,
{
}

} // verus!
