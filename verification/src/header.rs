//! Encryption header: the binary framing of per-ciphertext metadata.
//!
//! Wire format, big-endian where multi-byte:
//!
//! ```text
//! version(1) | kek_id_len(1) | kek_id | wrapped_dek_len(2) | wrapped_dek
//!            | flags(1) | nonce_len(1) | nonce
//! ```
//!
//! The parser returns the exact number of bytes consumed, so a caller
//! can locate the start of the payload ciphertext without a separate
//! total-length field.

use vstd::prelude::*;
use vstd::utf8::{decode_utf8, encode_utf8, valid_utf8};

use crate::error::Error;
use crate::util::{bytes_eq, copy_range, push_bytes};

verus! {

/// Protocol version for the encryption format.  Only this value is
/// accepted on parse.
pub const PROTOCOL_VERSION: u8 = 1;

/// Header flags: a single-byte bitmask.  Bit 0 indicates deterministic
/// mode; it is informational metadata set by the header creator and is
/// not consulted by the decrypt path.
#[derive(Debug, Clone, Copy, PartialEq, Eq, Structural)]
pub struct HeaderFlags(u8);

impl HeaderFlags {
    /// The raw bitmask.
    pub closed spec fn spec_bits(self) -> u8 {
        self.0
    }

    /// Creates empty flags.
    pub fn empty() -> (r: Self)
        ensures
            r.spec_bits() == 0u8,
    {
        HeaderFlags(0)
    }

    /// Checks whether the deterministic-mode bit is set.
    pub fn is_deterministic(self) -> (r: bool)
        ensures
            r == (self.spec_bits() & 0x01u8 != 0u8),
    {
        (self.0 & 0x01) != 0
    }

    /// Sets the deterministic-mode bit.
    pub fn with_deterministic(self) -> (r: Self)
        ensures
            r.spec_bits() == (self.spec_bits() | 0x01u8),
    {
        HeaderFlags(self.0 | 0x01)
    }

    /// Returns the raw flags byte.
    pub fn as_u8(self) -> (r: u8)
        ensures
            r == self.spec_bits(),
    {
        self.0
    }

    /// Creates flags from a raw byte.
    pub fn from_u8(value: u8) -> (r: Self)
        ensures
            r.spec_bits() == value,
    {
        HeaderFlags(value)
    }
}

/// Mathematical model of an [`EncryptionHeader`].
pub ghost struct EncryptionHeaderView {
    pub version: u8,
    pub kek_id: Seq<char>,
    pub wrapped_dek: Seq<u8>,
    pub flags: u8,
    pub nonce: Seq<u8>,
}

/// The KEK id of a header as UTF-8 bytes: what the wire format carries.
pub open spec fn spec_kek_id_bytes(h: EncryptionHeaderView) -> Seq<u8> {
    encode_utf8(h.kek_id)
}

/// Whether a header fits the wire format: each length-prefixed field
/// must fit its prefix width.
pub open spec fn spec_header_encodable(h: EncryptionHeaderView) -> bool {
    &&& spec_kek_id_bytes(h).len() <= 255
    &&& h.wrapped_dek.len() <= 65535
    &&& h.nonce.len() <= 255
}

/// The serialized bytes of an encodable header.
pub open spec fn spec_header_bytes(h: EncryptionHeaderView) -> Seq<u8> {
    seq![h.version] + seq![spec_kek_id_bytes(h).len() as u8] + spec_kek_id_bytes(h) + seq![
        (h.wrapped_dek.len() / 256) as u8,
        (h.wrapped_dek.len() % 256) as u8,
    ] + h.wrapped_dek + seq![h.flags] + seq![h.nonce.len() as u8] + h.nonce
}

/// The outcome of parsing a header from `data`: the header and the
/// number of bytes consumed, or nothing if `data` is not a well-formed
/// header (empty, wrong version byte, truncated field, or a KEK id
/// that is not valid UTF-8).
pub open spec fn spec_parse_header(data: Seq<u8>) -> Option<(EncryptionHeaderView, int)> {
    if data.len() < 2 {
        None
    } else if data[0] != PROTOCOL_VERSION {
        None
    } else {
        let kek_len = data[1] as int;
        if 2 + kek_len > data.len() {
            None
        } else {
            let kek_bytes = data.subrange(2, 2 + kek_len);
            if !valid_utf8(kek_bytes) {
                None
            } else {
                let p2 = 2 + kek_len;
                if p2 + 2 > data.len() {
                    None
                } else {
                    let dek_len = (data[p2] as int) * 256 + (data[p2 + 1] as int);
                    let p3 = p2 + 2;
                    if p3 + dek_len > data.len() {
                        None
                    } else {
                        let p4 = p3 + dek_len;
                        if p4 + 2 > data.len() {
                            None
                        } else {
                            let nonce_len = data[p4 + 1] as int;
                            let p6 = p4 + 2;
                            if p6 + nonce_len > data.len() {
                                None
                            } else {
                                Some(
                                    (
                                        EncryptionHeaderView {
                                            version: data[0],
                                            kek_id: decode_utf8(kek_bytes),
                                            wrapped_dek: data.subrange(p3, p3 + dek_len),
                                            flags: data[p4],
                                            nonce: data.subrange(p6, p6 + nonce_len),
                                        },
                                        p6 + nonce_len,
                                    ),
                                )
                            }
                        }
                    }
                }
            }
        }
    }
}

/// Encryption header containing the metadata needed for decryption:
/// the identifier of the KEK that wrapped the DEK, the wrapped DEK
/// itself, a flags byte and the AEAD nonce.
#[derive(Debug)]
pub struct EncryptionHeader {
    version: u8,
    kek_id: String,
    wrapped_dek: Vec<u8>,
    flags: HeaderFlags,
    nonce: Vec<u8>,
}

impl View for EncryptionHeader {
    type V = EncryptionHeaderView;

    closed spec fn view(&self) -> EncryptionHeaderView {
        EncryptionHeaderView {
            version: self.version,
            kek_id: self.kek_id@,
            wrapped_dek: self.wrapped_dek@,
            flags: self.flags.spec_bits(),
            nonce: self.nonce@,
        }
    }
}

impl EncryptionHeader {
    /// Creates a header for the current protocol version.
    pub fn new(kek_id: &str, wrapped_dek: Vec<u8>, flags: HeaderFlags, nonce: Vec<u8>) -> (r:
        Self)
        ensures
            r@ == (EncryptionHeaderView {
                version: PROTOCOL_VERSION,
                kek_id: kek_id@,
                wrapped_dek: wrapped_dek@,
                flags: flags.spec_bits(),
                nonce: nonce@,
            }),
    {
        EncryptionHeader {
            version: PROTOCOL_VERSION,
            kek_id: kek_id.to_owned(),
            wrapped_dek,
            flags,
            nonce,
        }
    }

    /// Returns the protocol version.
    pub fn version(&self) -> (r: u8)
        ensures
            r == self@.version,
    {
        self.version
    }

    /// Returns the KEK identifier.
    pub fn kek_id(&self) -> (r: &str)
        ensures
            r@ == self@.kek_id,
    {
        self.kek_id.as_str()
    }

    /// Returns the wrapped DEK.
    pub fn wrapped_dek(&self) -> (r: &[u8])
        ensures
            r@ == self@.wrapped_dek,
    {
        self.wrapped_dek.as_slice()
    }

    /// Returns the header flags.
    pub fn flags(&self) -> (r: HeaderFlags)
        ensures
            r.spec_bits() == self@.flags,
    {
        self.flags
    }

    /// Returns the nonce.
    pub fn nonce(&self) -> (r: &[u8])
        ensures
            r@ == self@.nonce,
    {
        self.nonce.as_slice()
    }

    /// Serializes the header.
    ///
    /// Fails with `InvalidHeader` exactly when a length-prefixed field
    /// does not fit its prefix: a KEK id over 255 bytes, a wrapped DEK
    /// over 65535 bytes, or a nonce over 255 bytes.
    pub fn to_bytes(&self) -> (r: Result<Vec<u8>, Error>)
        ensures
            spec_header_encodable(self@) ==> (r matches Ok(v) && v@ == spec_header_bytes(self@)),
            !spec_header_encodable(self@) ==> (r matches Err(e) && e is InvalidHeader),
    {
        let kek_bytes: &[u8] = self.kek_id.as_str().as_bytes();
        if kek_bytes.len() > 255 {
            return Err(Error::InvalidHeader("KEK ID too long".to_owned()));
        }
        if self.wrapped_dek.len() > 65535 {
            return Err(Error::InvalidHeader("wrapped DEK too long".to_owned()));
        }
        if self.nonce.len() > 255 {
            return Err(Error::InvalidHeader("nonce too long".to_owned()));
        }

        let mut bytes: Vec<u8> = Vec::new();
        bytes.push(self.version);
        bytes.push(kek_bytes.len() as u8);
        push_bytes(&mut bytes, kek_bytes);
        bytes.push((self.wrapped_dek.len() / 256) as u8);
        bytes.push((self.wrapped_dek.len() % 256) as u8);
        push_bytes(&mut bytes, self.wrapped_dek.as_slice());
        bytes.push(self.flags.as_u8());
        bytes.push(self.nonce.len() as u8);
        push_bytes(&mut bytes, self.nonce.as_slice());
        proof {
            assert(bytes@ =~= spec_header_bytes(self@));
        }
        Ok(bytes)
    }

    /// Parses a header from the front of `data` and returns it together
    /// with the number of bytes consumed.
    ///
    /// Fails with `UnsupportedVersion` when the leading byte is not the
    /// supported protocol version, reporting both values, and with
    /// `InvalidHeader` on empty input, any truncated field, or a KEK id
    /// that is not valid UTF-8.
    pub fn from_bytes(data: &[u8]) -> (r: Result<(EncryptionHeader, usize), Error>)
        ensures
            match r {
                Ok((h, n)) => spec_parse_header(data@) == Some((h@, n as int)),
                Err(e) => {
                    &&& spec_parse_header(data@) is None
                    &&& data@.len() == 0 ==> e is InvalidHeader
                    &&& (data@.len() > 0 && data@[0] != PROTOCOL_VERSION) ==> (e matches
                        Error::UnsupportedVersion { version, supported } && version == data@[0]
                        && supported@ == "1"@)
                    &&& (data@.len() > 0 && data@[0] == PROTOCOL_VERSION) ==> e is InvalidHeader
                },
            },
    {
        if data.len() == 0 {
            return Err(Error::InvalidHeader("empty header data".to_owned()));
        }
        let version = data[0];
        if version != PROTOCOL_VERSION {
            return Err(Error::UnsupportedVersion { version, supported: "1".to_owned() });
        }
        if data.len() < 2 {
            return Err(Error::InvalidHeader("missing KEK ID length".to_owned()));
        }
        let kek_id_len: usize = data[1] as usize;
        if kek_id_len > data.len() - 2 {
            return Err(Error::InvalidHeader("KEK ID truncated".to_owned()));
        }
        let kek_bytes = copy_range(data, 2, 2 + kek_id_len);
        let kek_id = match bytes_to_string(kek_bytes) {
            Some(s) => s,
            None => {
                return Err(Error::InvalidHeader("invalid KEK ID UTF-8".to_owned()));
            },
        };
        let p2: usize = 2 + kek_id_len;

        if data.len() - p2 < 2 {
            return Err(Error::InvalidHeader("missing wrapped DEK length".to_owned()));
        }
        let wrapped_dek_len: usize = (data[p2] as usize) * 256 + (data[p2 + 1] as usize);
        let p3: usize = p2 + 2;
        if wrapped_dek_len > data.len() - p3 {
            return Err(Error::InvalidHeader("wrapped DEK truncated".to_owned()));
        }
        let wrapped_dek = copy_range(data, p3, p3 + wrapped_dek_len);
        let p4: usize = p3 + wrapped_dek_len;

        if data.len() - p4 < 2 {
            return Err(Error::InvalidHeader("missing flags or nonce length".to_owned()));
        }
        let flags = HeaderFlags::from_u8(data[p4]);
        let nonce_len: usize = data[p4 + 1] as usize;
        let p6: usize = p4 + 2;
        if nonce_len > data.len() - p6 {
            return Err(Error::InvalidHeader("nonce truncated".to_owned()));
        }
        let nonce = copy_range(data, p6, p6 + nonce_len);
        let consumed: usize = p6 + nonce_len;

        let header = EncryptionHeader { version, kek_id, wrapped_dek, flags, nonce };
        Ok((header, consumed))
    }
}

/// Serializing an encodable header and parsing the result reproduces
/// the header exactly, consuming every serialized byte.
pub proof fn lemma_header_round_trip(h: EncryptionHeaderView)
    requires
        spec_header_encodable(h),
        h.version == PROTOCOL_VERSION,
    ensures
        spec_parse_header(spec_header_bytes(h)) == Some(
            (h, spec_header_bytes(h).len() as int),
        ),
{
    lemma_header_parse_prefix(h, Seq::empty());
    assert(spec_header_bytes(h) + Seq::<u8>::empty() =~= spec_header_bytes(h));
}

/// The parser reads only the serialized header at the front of its
/// input: parsing a serialized header with any payload appended yields
/// the header and consumes exactly the serialized header's length.
pub proof fn lemma_header_parse_prefix(h: EncryptionHeaderView, payload: Seq<u8>)
    requires
        spec_header_encodable(h),
        h.version == PROTOCOL_VERSION,
    ensures
        spec_parse_header(spec_header_bytes(h) + payload) == Some(
            (h, spec_header_bytes(h).len() as int),
        ),
{
    let data = spec_header_bytes(h) + payload;
    let kb = spec_kek_id_bytes(h);
    let kl = kb.len() as int;
    let dl = h.wrapped_dek.len() as int;
    let nl = h.nonce.len() as int;

    assert(data.len() == 6 + kl + dl + nl + payload.len());
    assert(data[0] == h.version);
    assert(data[1] == kl as u8);
    assert(data.subrange(2, 2 + kl) =~= kb);
    vstd::utf8::encode_utf8_valid_utf8(h.kek_id);
    vstd::utf8::encode_utf8_decode_utf8(h.kek_id);
    let p2 = 2 + kl;
    assert(data[p2] == (h.wrapped_dek.len() / 256) as u8);
    assert(data[p2 + 1] == (h.wrapped_dek.len() % 256) as u8);
    assert((data[p2] as int) * 256 + (data[p2 + 1] as int) == dl);
    let p3 = p2 + 2;
    assert(data.subrange(p3, p3 + dl) =~= h.wrapped_dek);
    let p4 = p3 + dl;
    assert(data[p4] == h.flags);
    assert(data[p4 + 1] == nl as u8);
    let p6 = p4 + 2;
    assert(data.subrange(p6, p6 + nl) =~= h.nonce);
    assert(spec_parse_header(data) == Some((h, p6 + nl)));
}

/// Relies on String::from_utf8: it succeeds exactly on valid UTF-8
/// input and returns its decoding.
#[verifier::external_body]
fn bytes_to_string(bytes: Vec<u8>) -> (r: Option<String>)
    ensures
        match r {
            Some(s) => valid_utf8(bytes@) && s@ == decode_utf8(bytes@),
            None => !valid_utf8(bytes@),
        },
{
    String::from_utf8(bytes).ok()
}

impl PartialEq for EncryptionHeader {
    /// Headers are equal when all their fields are.
    fn eq(&self, other: &Self) -> (r: bool) {
        self.version == other.version && self.kek_id == other.kek_id && bytes_eq(
            self.wrapped_dek.as_slice(),
            other.wrapped_dek.as_slice(),
        ) && self.flags.as_u8() == other.flags.as_u8() && bytes_eq(
            self.nonce.as_slice(),
            other.nonce.as_slice(),
        )
    }
}

impl vstd::std_specs::cmp::PartialEqSpecImpl for EncryptionHeader {
    open spec fn obeys_eq_spec() -> bool {
        true
    }

    open spec fn eq_spec(&self, other: &Self) -> bool {
        self@ == other@
    }
}

impl Eq for EncryptionHeader {

}

} // verus!
