//! Trusted wrappers around the cryptographic primitives.
//!
//! Each primitive whose output is a pure function of its inputs is
//! given a name by an uninterpreted spec function; the wrapper that
//! performs the call states that its result equals that name applied
//! to the arguments.  All verified reasoning about ciphertexts goes
//! through these names; nothing restates the algorithms themselves.

use vstd::prelude::*;

use chacha20poly1305::aead::rand_core::RngCore;
use chacha20poly1305::aead::{Aead, KeyInit};
use hmac::Mac;

verus! {

/// A ChaCha20-Poly1305 message may not reach `u32::MAX` 64-byte blocks;
/// the cipher rejects longer inputs.
pub open spec fn chacha_len_ok(n: nat) -> bool {
    n < 0x3FFFFFFFC0
}

/// The ChaCha20-Poly1305 ciphertext (with its 16-byte tag appended) for
/// a 32-byte key, a 12-byte nonce, associated data and a plaintext.
pub uninterp spec fn chacha20poly1305_seal(
    key: Seq<u8>,
    nonce: Seq<u8>,
    aad: Seq<u8>,
    plaintext: Seq<u8>,
) -> Seq<u8>;

/// The AES-256-SIV ciphertext (16-byte synthetic IV followed by the
/// encrypted payload) for a 64-byte key, associated data and a
/// plaintext, with the fixed all-zero nonce.
pub uninterp spec fn aes256_siv_seal(key: Seq<u8>, aad: Seq<u8>, plaintext: Seq<u8>) -> Seq<u8>;

/// The HMAC-SHA256 authentication code of a message under a key of any
/// length.
pub uninterp spec fn hmac_sha256(key: Seq<u8>, message: Seq<u8>) -> Seq<u8>;

/// The first 32 bytes of HKDF-SHA256-Expand output for the given
/// pseudorandom key (no extract step, no salt) and `info` string.
pub uninterp spec fn hkdf_sha256_expand32(prk: Seq<u8>, info: Seq<u8>) -> Seq<u8>;

/// Relies on the OsRng implementation of rand_core::RngCore::fill_bytes:
/// fills a buffer with bytes from the operating system's randomness
/// source.  Nothing is assumed of the values.
#[verifier::external_body]
pub(crate) fn random_bytes(n: usize) -> (r: Vec<u8>)
    ensures
        r@.len() == n,
{
    let mut buf = vec![0u8; n];
    chacha20poly1305::aead::OsRng.fill_bytes(&mut buf);
    buf
}

/// Relies on chacha20poly1305::ChaCha20Poly1305: `encrypt` produces the
/// ciphertext with its tag appended, a deterministic function of key,
/// nonce, associated data and plaintext, 16 bytes longer than the
/// plaintext, and distinct plaintexts give distinct ciphertexts.  With
/// a 32-byte key, a 12-byte nonce and an in-range plaintext the call
/// does not fail.
#[verifier::external_body]
pub(crate) fn chacha20poly1305_encrypt(key: &[u8], nonce: &[u8], aad: &[u8], plaintext: &[u8]) -> (r:
    Vec<u8>)
    requires
        key@.len() == 32,
        nonce@.len() == 12,
        chacha_len_ok(plaintext@.len()),
    ensures
        r@ == chacha20poly1305_seal(key@, nonce@, aad@, plaintext@),
        r@.len() == plaintext@.len() + 16,
        forall|p: Seq<u8>|
            chacha20poly1305_seal(key@, nonce@, aad@, p) == r@ ==> p == plaintext@,
{
    let cipher = chacha20poly1305::ChaCha20Poly1305::new_from_slice(key)
        .expect("key length checked");
    let nonce = chacha20poly1305::Nonce::from_slice(nonce);
    cipher
        .encrypt(nonce, chacha20poly1305::aead::Payload { msg: plaintext, aad })
        .expect("message length checked")
}

/// Relies on chacha20poly1305::ChaCha20Poly1305: `decrypt` succeeds
/// exactly when the ciphertext is authentic for the key, nonce and
/// associated data, and then returns the unique plaintext whose
/// encryption is this ciphertext.
#[verifier::external_body]
pub(crate) fn chacha20poly1305_decrypt(key: &[u8], nonce: &[u8], aad: &[u8], ciphertext: &[u8]) -> (r:
    Option<Vec<u8>>)
    requires
        key@.len() == 32,
        nonce@.len() == 12,
    ensures
        match r {
            Some(p) => {
                &&& ciphertext@ == chacha20poly1305_seal(key@, nonce@, aad@, p@)
                &&& p@.len() + 16 == ciphertext@.len()
                &&& chacha_len_ok(p@.len())
                &&& forall|q: Seq<u8>|
                    chacha20poly1305_seal(key@, nonce@, aad@, q) == ciphertext@ ==> q == p@
            },
            None => forall|p: Seq<u8>|
                p.len() + 16 == ciphertext@.len() && chacha_len_ok(p.len())
                    ==> chacha20poly1305_seal(key@, nonce@, aad@, p) != ciphertext@,
        },
{
    let cipher = chacha20poly1305::ChaCha20Poly1305::new_from_slice(key)
        .expect("key length checked");
    let nonce = chacha20poly1305::Nonce::from_slice(nonce);
    cipher.decrypt(nonce, chacha20poly1305::aead::Payload { msg: ciphertext, aad }).ok()
}

/// Relies on aes_siv::Aes256SivAead: with the fixed all-zero nonce,
/// `encrypt` is a deterministic function of key, associated data and
/// plaintext; the ciphertext is 16 bytes longer than the plaintext and
/// distinct plaintexts give distinct ciphertexts.  With a 64-byte key
/// the call does not fail.
#[verifier::external_body]
pub(crate) fn aes256_siv_encrypt(key: &[u8], aad: &[u8], plaintext: &[u8]) -> (r: Vec<u8>)
    requires
        key@.len() == 64,
    ensures
        r@ == aes256_siv_seal(key@, aad@, plaintext@),
        r@.len() == plaintext@.len() + 16,
        forall|p: Seq<u8>| aes256_siv_seal(key@, aad@, p) == r@ ==> p == plaintext@,
{
    let cipher = aes_siv::Aes256SivAead::new_from_slice(key).expect("key length checked");
    let nonce = aes_siv::Nonce::default();
    cipher
        .encrypt(&nonce, aes_siv::aead::Payload { msg: plaintext, aad })
        .expect("encryption with a valid key does not fail")
}

/// Relies on aes_siv::Aes256SivAead: `decrypt` (with the fixed all-zero
/// nonce) succeeds exactly when the ciphertext is authentic for the key
/// and associated data, and then returns the unique plaintext whose
/// encryption is this ciphertext.
#[verifier::external_body]
pub(crate) fn aes256_siv_decrypt(key: &[u8], aad: &[u8], ciphertext: &[u8]) -> (r: Option<Vec<u8>>)
    requires
        key@.len() == 64,
    ensures
        match r {
            Some(p) => {
                &&& ciphertext@ == aes256_siv_seal(key@, aad@, p@)
                &&& p@.len() + 16 == ciphertext@.len()
                &&& forall|q: Seq<u8>| aes256_siv_seal(key@, aad@, q) == ciphertext@ ==> q == p@
            },
            None => forall|p: Seq<u8>| aes256_siv_seal(key@, aad@, p) != ciphertext@,
        },
{
    let cipher = aes_siv::Aes256SivAead::new_from_slice(key).expect("key length checked");
    let nonce = aes_siv::Nonce::default();
    cipher.decrypt(&nonce, aes_siv::aead::Payload { msg: ciphertext, aad }).ok()
}

/// Relies on hmac::Hmac<sha2::Sha256>: keys of any length are accepted,
/// and the authentication code is a deterministic 32-byte function of
/// key and message.
#[verifier::external_body]
pub(crate) fn hmac_sha256_compute(key: &[u8], message: &[u8]) -> (r: Vec<u8>)
    ensures
        r@ == hmac_sha256(key@, message@),
        r@.len() == 32,
{
    let mut mac = <hmac::Hmac<sha2::Sha256> as Mac>::new_from_slice(key)
        .expect("HMAC accepts keys of any length");
    mac.update(message);
    mac.finalize().into_bytes().to_vec()
}

/// Relies on hkdf::Hkdf<sha2::Sha256>: `from_prk` skips the extract
/// step and accepts any pseudorandom key of at least the hash length
/// (32 bytes), and a 32-byte expansion is a deterministic function of
/// that key and the `info` string, never exceeding the HKDF output
/// limit.
#[verifier::external_body]
pub(crate) fn hkdf_sha256_derive32(prk: &[u8], info: &[u8]) -> (r: Vec<u8>)
    requires
        prk@.len() >= 32,
    ensures
        r@ == hkdf_sha256_expand32(prk@, info@),
        r@.len() == 32,
{
    let hk = hkdf::Hkdf::<sha2::Sha256>::from_prk(prk).expect("PRK length checked");
    let mut okm = vec![0u8; 32];
    hk.expand(info, &mut okm).expect("32 bytes is within the HKDF output limit");
    okm
}

} // verus!
