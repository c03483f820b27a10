//! Envelope encryption.
//!
//! The vault encrypts each value under a fresh random data-encryption
//! key (DEK), wraps that DEK under the key provider's current
//! key-encryption key (KEK), and prepends a header carrying the KEK
//! id, the wrapped DEK and the AEAD nonce to the ciphertext.  The
//! caller-supplied context's canonical string is bound as associated
//! data, so decrypting under a different context fails authentication
//! rather than yielding wrong plaintext.

use vstd::prelude::*;

use crate::context::{spec_encryption_canonical_bytes, EncryptionContext};
use crate::crypto::{
    chacha20poly1305_decrypt, chacha20poly1305_encrypt, chacha20poly1305_seal, chacha_len_ok,
    random_bytes,
};
use crate::error::Error;
use crate::header::{
    spec_header_bytes, spec_header_encodable, spec_parse_header, EncryptionHeader,
    EncryptionHeaderView, HeaderFlags, PROTOCOL_VERSION,
};
use crate::kdf::generate_dek;
use crate::key_provider::KeyProvider;
use crate::util::push_bytes;
use std::sync::Arc;

verus! {

/// Nonce size for ChaCha20-Poly1305 (96 bits).
pub const NONCE_SIZE: usize = 12;

/// The AEAD construction a vault uses.  The header format does not
/// encode the cipher mode; if further constructions are added, the
/// header needs an explicit algorithm identifier field first.
#[derive(Debug, Clone, Copy, PartialEq, Eq, Structural)]
pub enum CipherMode {
    /// ChaCha20-Poly1305 AEAD cipher (the default).
    ChaCha20Poly1305,
}

impl Default for CipherMode {
    fn default() -> (r: Self)
        ensures
            r == CipherMode::ChaCha20Poly1305,
    {
        CipherMode::ChaCha20Poly1305
    }
}

/// Whether `blob`, together with the header `h` and the DEK `dek`, is
/// an envelope ciphertext of `plaintext` for `context` relative to the
/// key provider `p`: a well-formed header with an empty flags byte
/// whose wrapped DEK unwraps (under the header's KEK id) to the
/// 32-byte `dek`, followed by the ChaCha20-Poly1305 sealing of the
/// plaintext with that DEK, the header's 12-byte nonce, and the
/// context's canonical bytes.
pub open spec fn spec_envelope_parts<P: KeyProvider>(
    p: P,
    blob: Seq<u8>,
    plaintext: Seq<u8>,
    context: crate::context::EncryptionContextView,
    h: EncryptionHeaderView,
    dek: Seq<u8>,
) -> bool {
    &&& spec_header_encodable(h)
    &&& h.version == PROTOCOL_VERSION
    &&& h.flags == 0
    &&& h.nonce.len() == NONCE_SIZE
    &&& dek.len() == 32
    &&& p.spec_unwrap(h.kek_id, h.wrapped_dek) == Some(dek)
    &&& chacha_len_ok(plaintext.len())
    &&& blob == spec_header_bytes(h) + chacha20poly1305_seal(
        dek,
        h.nonce,
        spec_encryption_canonical_bytes(context),
        plaintext,
    )
    &&& blob.len() == spec_header_bytes(h).len() + plaintext.len() + 16
}

/// Whether `blob` is an envelope ciphertext of `plaintext` for
/// `context` relative to the key provider `p`.
pub open spec fn spec_envelope<P: KeyProvider>(
    p: P,
    blob: Seq<u8>,
    plaintext: Seq<u8>,
    context: crate::context::EncryptionContextView,
) -> bool {
    exists|h: EncryptionHeaderView, dek: Seq<u8>|
        spec_envelope_parts(p, blob, plaintext, context, h, dek)
}

/// Vault for envelope encryption and decryption.
///
/// The vault holds a shared, reference-counted handle to its key
/// provider and an immutable cipher-mode selection; it keeps no other
/// state, so concurrent calls on one vault need no locking here.
/// Clones share the provider.
pub struct Vault<P: KeyProvider> {
    provider: Arc<P>,
    cipher_mode: CipherMode,
}

impl<P: KeyProvider> Vault<P> {
    /// The provider this vault encrypts and decrypts with.
    pub closed spec fn spec_provider(&self) -> P {
        *self.provider
    }

    /// The cipher mode this vault uses.
    pub closed spec fn spec_mode(&self) -> CipherMode {
        self.cipher_mode
    }

    /// Creates a vault around a key provider and a cipher mode.
    pub fn new(provider: P, cipher_mode: CipherMode) -> (r: Self)
        ensures
            r.spec_provider() == provider,
            r.spec_mode() == cipher_mode,
    {
        Vault { provider: Arc::new(provider), cipher_mode }
    }

    /// Encrypts a plaintext under envelope encryption.
    ///
    /// A fresh random 32-byte DEK is generated and wrapped under the
    /// provider's current KEK; the plaintext is sealed with the DEK, a
    /// fresh random 12-byte nonce, and the context's canonical string
    /// as associated data; and the serialized header is prepended.  On
    /// success the blob is an envelope of the plaintext for this
    /// context and provider.  A provider failure propagates as
    /// `KeyProvider`; a KEK id or wrapped DEK too large for the header
    /// fails with `InvalidHeader`; `EncryptionFailed` occurs exactly
    /// when the plaintext exceeds the cipher's length limit.
    pub fn encrypt(&self, plaintext: &[u8], context: &EncryptionContext) -> (r: Result<
        Vec<u8>,
        Error,
    >)
        ensures
            r matches Ok(blob) ==> spec_envelope(
                self.spec_provider(),
                blob@,
                plaintext@,
                context@,
            ),
            r matches Err(e) ==> (e is KeyProvider || e is InvalidHeader || e
                is EncryptionFailed),
            (r matches Err(e) && e is EncryptionFailed) ==> !chacha_len_ok(plaintext@.len()),
    {
        let dek = generate_dek();

        let kek_id = match arc_get(&self.provider).current_kek_id() {
            Ok(id) => id,
            Err(e) => {
                return Err(Error::KeyProvider(e));
            },
        };

        let wrapped_dek = match arc_get(&self.provider).wrap_dek(
            kek_id.as_str(),
            dek.expose_secret().as_slice(),
        ) {
            Ok(w) => w,
            Err(e) => {
                return Err(Error::KeyProvider(e));
            },
        };

        if !((plaintext.len() as u64) < 0x3FFFFFFFC0u64) {
            return Err(Error::EncryptionFailed("plaintext too long".to_owned()));
        }

        let nonce = random_bytes(NONCE_SIZE);

        let ciphertext = match self.cipher_mode {
            CipherMode::ChaCha20Poly1305 => {
                let aad = context.canonical_string();
                chacha20poly1305_encrypt(
                    dek.expose_secret().as_slice(),
                    nonce.as_slice(),
                    aad.as_str().as_bytes(),
                    plaintext,
                )
            },
        };

        let header = EncryptionHeader::new(kek_id.as_str(), wrapped_dek, HeaderFlags::empty(), nonce);
        let header_bytes = match header.to_bytes() {
            Ok(b) => b,
            Err(e) => {
                return Err(e);
            },
        };

        let mut result = header_bytes;
        push_bytes(&mut result, ciphertext.as_slice());
        proof {
            assert(spec_envelope_parts(
                self.spec_provider(),
                result@,
                plaintext@,
                context@,
                header@,
                dek@,
            ));
        }
        Ok(result)
    }

    /// Decrypts an envelope ciphertext blob.
    ///
    /// The header is parsed, its wrapped DEK unwrapped by the provider
    /// under the header's KEK id, and the payload opened with the
    /// caller-supplied context's canonical string as associated data.
    /// A successful result is the unique plaintext whose envelope the
    /// blob is — decryption never silently returns wrong plaintext —
    /// and on any blob that is an envelope of some plaintext for this
    /// context and provider, decryption returns exactly that plaintext
    /// unless the provider itself fails.  A blob whose header does not
    /// parse fails before any provider call, with `UnsupportedVersion`
    /// when the leading byte is not the protocol version and
    /// `InvalidHeader` otherwise; a provider failure propagates as
    /// `KeyProvider`; a parsed header whose unwrapped DEK is not 32
    /// bytes or whose nonce is not 12 bytes fails with
    /// `DecryptionFailed`; and an authentication mismatch (corruption
    /// or a wrong context, indistinguishable by design) fails as
    /// `AuthenticationFailed`, exactly when the payload is not a
    /// sealing of any suitable plaintext under the unwrapped DEK.
    pub fn decrypt(&self, ciphertext: &[u8], context: &EncryptionContext) -> (r: Result<
        Vec<u8>,
        Error,
    >)
        ensures
            r matches Ok(p) ==> (spec_parse_header(ciphertext@) matches Some((h, n))
                && self.spec_provider().spec_unwrap(h.kek_id, h.wrapped_dek) matches Some(dek)
                && ciphertext@.skip(n) == chacha20poly1305_seal(
                dek,
                h.nonce,
                spec_encryption_canonical_bytes(context@),
                p@,
            )),
            forall|p0: Seq<u8>|
                spec_envelope(self.spec_provider(), ciphertext@, p0, context@) ==> ((r matches Ok(
                    p,
                ) && p@ == p0) || (r matches Err(e) && e is KeyProvider)),
            r matches Err(e) ==> (e is InvalidHeader || e is UnsupportedVersion || e
                is KeyProvider || e is DecryptionFailed || e is AuthenticationFailed),
            (r matches Err(e) && (e is InvalidHeader || e is UnsupportedVersion))
                ==> spec_parse_header(ciphertext@) is None,
            spec_parse_header(ciphertext@) is None ==> (r matches Err(e) && (e is InvalidHeader
                || e is UnsupportedVersion)),
            (ciphertext@.len() > 0 && ciphertext@[0] != PROTOCOL_VERSION) ==> (r matches Err(e)
                && e is UnsupportedVersion),
            (spec_parse_header(ciphertext@) is None && (ciphertext@.len() == 0 || ciphertext@[0]
                == PROTOCOL_VERSION)) ==> (r matches Err(e) && e is InvalidHeader),
            (r matches Err(e) && e is DecryptionFailed) ==> (spec_parse_header(ciphertext@)
                matches Some((h, n)) && self.spec_provider().spec_unwrap(h.kek_id, h.wrapped_dek)
                matches Some(dek) && (dek.len() != 32 || h.nonce.len() != NONCE_SIZE)),
            (r matches Err(e) && e is AuthenticationFailed) ==> (spec_parse_header(ciphertext@)
                matches Some((h, n)) && self.spec_provider().spec_unwrap(h.kek_id, h.wrapped_dek)
                matches Some(dek) && forall|q: Seq<u8>|
                q.len() + 16 == ciphertext@.len() - n && chacha_len_ok(q.len())
                    ==> chacha20poly1305_seal(
                    dek,
                    h.nonce,
                    spec_encryption_canonical_bytes(context@),
                    q,
                ) != ciphertext@.skip(n)),
    {
        let (header, header_len) = match EncryptionHeader::from_bytes(ciphertext) {
            Ok(x) => x,
            Err(e) => {
                proof {
                    lemma_envelope_parses(self.spec_provider(), ciphertext@, context@);
                }
                return Err(e);
            },
        };

        let encrypted_data = vstd::slice::slice_subrange(ciphertext, header_len, ciphertext.len());

        let dek = match arc_get(&self.provider).unwrap_dek(header.kek_id(), header.wrapped_dek()) {
            Ok(d) => d,
            Err(e) => {
                return Err(Error::KeyProvider(e));
            },
        };

        match self.cipher_mode {
            CipherMode::ChaCha20Poly1305 => {
                if dek.len() != 32 {
                    proof {
                        lemma_envelope_unwrap_unique(
                            self.spec_provider(),
                            ciphertext@,
                            context@,
                            header@,
                            header_len as int,
                            dek@,
                        );
                    }
                    return Err(Error::DecryptionFailed("invalid DEK size".to_owned()));
                }
                if header.nonce().len() != NONCE_SIZE {
                    proof {
                        lemma_envelope_unwrap_unique(
                            self.spec_provider(),
                            ciphertext@,
                            context@,
                            header@,
                            header_len as int,
                            dek@,
                        );
                    }
                    return Err(Error::DecryptionFailed("invalid nonce size".to_owned()));
                }
                let aad = context.canonical_string();
                match chacha20poly1305_decrypt(
                    dek.expose_secret().as_slice(),
                    header.nonce(),
                    aad.as_str().as_bytes(),
                    encrypted_data,
                ) {
                    Some(plaintext) => {
                        proof {
                            lemma_envelope_unwrap_unique(
                                self.spec_provider(),
                                ciphertext@,
                                context@,
                                header@,
                                header_len as int,
                                dek@,
                            );
                        }
                        Ok(plaintext)
                    },
                    None => {
                        proof {
                            lemma_envelope_unwrap_unique(
                                self.spec_provider(),
                                ciphertext@,
                                context@,
                                header@,
                                header_len as int,
                                dek@,
                            );
                        }
                        Err(Error::AuthenticationFailed)
                    },
                }
            },
        }
    }
}

/// If a blob is an envelope, its header parses, consuming the header
/// bytes; contrapositively, a blob whose header does not parse is no
/// envelope of anything.
proof fn lemma_envelope_parses<P: KeyProvider>(
    p: P,
    blob: Seq<u8>,
    context: crate::context::EncryptionContextView,
)
    ensures
        forall|p0: Seq<u8>, h: EncryptionHeaderView, dek: Seq<u8>|
            #[trigger] spec_envelope_parts(p, blob, p0, context, h, dek) ==> spec_parse_header(
                blob,
            ) == Some((h, spec_header_bytes(h).len() as int)),
{
    assert forall|p0: Seq<u8>, h: EncryptionHeaderView, dek: Seq<u8>|
        #[trigger] spec_envelope_parts(p, blob, p0, context, h, dek) implies spec_parse_header(
        blob,
    ) == Some((h, spec_header_bytes(h).len() as int)) by {
        crate::header::lemma_header_parse_prefix(
            h,
            chacha20poly1305_seal(
                dek,
                h.nonce,
                spec_encryption_canonical_bytes(context),
                p0,
            ),
        );
    }
}

/// After the header of a blob has parsed as `h` (consuming `n` bytes)
/// and its wrapped DEK has unwrapped to `dek`, any plaintext the blob
/// envelopes is sealed with exactly `dek` and `h.nonce` into the
/// payload `blob.skip(n)`, and its length is the payload's less 16.
proof fn lemma_envelope_unwrap_unique<P: KeyProvider>(
    p: P,
    blob: Seq<u8>,
    context: crate::context::EncryptionContextView,
    h: EncryptionHeaderView,
    n: int,
    dek: Seq<u8>,
)
    requires
        spec_parse_header(blob) == Some((h, n)),
        p.spec_unwrap(h.kek_id, h.wrapped_dek) == Some(dek),
    ensures
        forall|p0: Seq<u8>|
            #[trigger] spec_envelope(p, blob, p0, context) ==> {
                &&& dek.len() == 32
                &&& h.nonce.len() == NONCE_SIZE
                &&& chacha_len_ok(p0.len())
                &&& p0.len() + 16 == blob.len() - n
                &&& blob.skip(n) == chacha20poly1305_seal(
                    dek,
                    h.nonce,
                    spec_encryption_canonical_bytes(context),
                    p0,
                )
            },
{
    assert forall|p0: Seq<u8>| #[trigger] spec_envelope(p, blob, p0, context) implies {
        &&& dek.len() == 32
        &&& h.nonce.len() == NONCE_SIZE
        &&& chacha_len_ok(p0.len())
        &&& p0.len() + 16 == blob.len() - n
        &&& blob.skip(n) == chacha20poly1305_seal(
            dek,
            h.nonce,
            spec_encryption_canonical_bytes(context),
            p0,
        )
    } by {
        let (h0, dek0) = choose|h0: EncryptionHeaderView, dek0: Seq<u8>|
            spec_envelope_parts(p, blob, p0, context, h0, dek0);
        let tail = chacha20poly1305_seal(
            dek0,
            h0.nonce,
            spec_encryption_canonical_bytes(context),
            p0,
        );
        crate::header::lemma_header_parse_prefix(h0, tail);
        assert(h0 == h);
        assert(dek0 == dek);
        assert(blob.skip(n) =~= tail);
    }
}

impl<P: KeyProvider> Clone for Vault<P> {
    /// A cloned vault shares the same provider and uses the same
    /// cipher mode.
    fn clone(&self) -> (r: Self)
        ensures
            r.spec_provider() == self.spec_provider(),
            r.spec_mode() == self.spec_mode(),
    {
        Vault { provider: arc_clone(&self.provider), cipher_mode: self.cipher_mode }
    }
}

/// Relies on std::sync::Arc::as_ref: a shared handle yields the value
/// it points to.
#[verifier::external_body]
fn arc_get<T>(arc: &Arc<T>) -> (r: &T)
    ensures
        *r == **arc,
{
    arc.as_ref()
}

/// Relies on std::sync::Arc::clone: the new handle points to the same
/// value.
#[verifier::external_body]
fn arc_clone<T>(arc: &Arc<T>) -> (r: Arc<T>)
    ensures
        r == *arc,
{
    Arc::clone(arc)
}

} // verus!
