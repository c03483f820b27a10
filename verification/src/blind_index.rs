//! Blind-index generation for searchable encryption.
//!
//! A blind index is a deterministic, truncated keyed hash of a
//! plaintext value: HMAC-SHA256 over `value || context`, keyed by the
//! provider's pepper and truncated to 16 bytes.  Equal values in equal
//! contexts give equal indexes, so equality queries can run directly on
//! the stored index without decrypting anything.

use vstd::prelude::*;

use crate::context::{spec_index_canonical_bytes, IndexContext, IndexContextView};
use crate::crypto::{hmac_sha256, hmac_sha256_compute};
use crate::error::Error;
use crate::key_provider::KeyProvider;
use crate::util::{copy_range, push_bytes};

verus! {

/// Standard blind-index output size (16 bytes).
pub const BLIND_INDEX_SIZE: usize = 16;

/// The blind index of a value in a context under a pepper: HMAC-SHA256
/// over the value followed by the context's canonical bytes, keyed by
/// the pepper, truncated to 16 bytes.
pub open spec fn spec_blind_index(pepper: Seq<u8>, value: Seq<u8>, context: IndexContextView) -> Seq<
    u8,
> {
    hmac_sha256(pepper, value + spec_index_canonical_bytes(context)).take(BLIND_INDEX_SIZE as int)
}

/// Generates a blind index for a value in an index context.
///
/// The result is a pure function of the provider's pepper, the value
/// and the context, and is exactly 16 bytes.  When the provider has no
/// pepper configured the call fails with `IndexGenerationFailed`; a
/// provider error retrieving the pepper propagates as `KeyProvider`.
pub fn generate_blind_index<P: KeyProvider>(
    provider: &P,
    value: &[u8],
    context: &IndexContext,
) -> (r: Result<Vec<u8>, Error>)
    ensures
        match r {
            Ok(idx) => {
                &&& provider.spec_pepper() matches Some(pepper) && idx@ == spec_blind_index(
                    pepper,
                    value@,
                    context@,
                )
                &&& idx@.len() == BLIND_INDEX_SIZE
            },
            Err(e) => {
                &&& e is IndexGenerationFailed || e is KeyProvider
                &&& e is IndexGenerationFailed ==> provider.spec_pepper() is None
            },
        },
{
    let pepper = match provider.get_pepper() {
        Err(e) => {
            return Err(Error::KeyProvider(e));
        },
        Ok(None) => {
            return Err(Error::IndexGenerationFailed("pepper not available".to_owned()));
        },
        Ok(Some(p)) => p,
    };
    let mut message = vstd::slice::slice_to_vec(value);
    let canonical = context.canonical_string();
    push_bytes(&mut message, canonical.as_str().as_bytes());
    let mac = hmac_sha256_compute(pepper.expose_secret().as_slice(), message.as_slice());
    let index = copy_range(mac.as_slice(), 0, BLIND_INDEX_SIZE);
    proof {
        assert(index@ =~= spec_blind_index(pepper@, value@, context@));
    }
    Ok(index)
}

/// Generates a deterministic blind index suitable for equality queries.
///
/// This is a convenience wrapper around [`generate_blind_index`]: the
/// same value and context always produce the same index.
pub fn generate_deterministic_index<P: KeyProvider>(
    provider: &P,
    value: &[u8],
    context: &IndexContext,
) -> (r: Result<Vec<u8>, Error>)
    ensures
        match r {
            Ok(idx) => {
                &&& provider.spec_pepper() matches Some(pepper) && idx@ == spec_blind_index(
                    pepper,
                    value@,
                    context@,
                )
                &&& idx@.len() == BLIND_INDEX_SIZE
            },
            Err(e) => {
                &&& e is IndexGenerationFailed || e is KeyProvider
                &&& e is IndexGenerationFailed ==> provider.spec_pepper() is None
            },
        },
{
    generate_blind_index(provider, value, context)
}

/// Blind indexes are deterministic: two indexes computed from the same
/// pepper, value and context are identical, and both are 16 bytes.
pub proof fn lemma_blind_index_deterministic(
    pepper: Seq<u8>,
    value: Seq<u8>,
    context: IndexContextView,
    i1: Seq<u8>,
    i2: Seq<u8>,
)
    requires
        i1 == spec_blind_index(pepper, value, context),
        i2 == spec_blind_index(pepper, value, context),
    ensures
        i1 == i2,
{
}

} // verus!
