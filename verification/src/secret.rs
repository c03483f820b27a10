//! Secret byte buffers.
//!
//! Every KEK, DEK and pepper is held in a [`SecretBytes`], a container
//! that zeroes its backing memory on release, does not print its
//! contents, and requires an explicit [`SecretBytes::expose_secret`]
//! call to read the bytes, so that each access is an auditable call
//! site.  The container is a `secrecy::Secret`, which Verus cannot
//! look into, so the stored bytes are named by [`secret_view`] and the
//! constructor and accessor are trusted to relate values to it.

use vstd::prelude::*;

verus! {

/// A secret byte buffer, zeroed on release.
///
/// The view of a `SecretBytes` is the byte sequence it holds.
#[verifier::external_body]
pub struct SecretBytes {
    inner: secrecy::Secret<Vec<u8>>,
}

/// The bytes stored inside a [`SecretBytes`].
pub uninterp spec fn secret_view(s: SecretBytes) -> Seq<u8>;

impl View for SecretBytes {
    type V = Seq<u8>;

    open spec fn view(&self) -> Seq<u8> {
        secret_view(*self)
    }
}

impl SecretBytes {
    /// Takes ownership of a byte buffer as a secret.
    ///
    /// Relies on secrecy::Secret::new: the container stores the given
    /// value unchanged.
    #[verifier::external_body]
    pub fn new(bytes: Vec<u8>) -> (r: Self)
        ensures
            secret_view(r) == bytes@,
    {
        SecretBytes { inner: secrecy::Secret::new(bytes) }
    }

    /// Exposes the secret bytes.  This is the only way to read them.
    ///
    /// Relies on secrecy::ExposeSecret::expose_secret: returns a
    /// reference to the stored value.
    #[verifier::external_body]
    pub fn expose_secret(&self) -> (r: &Vec<u8>)
        ensures
            r@ == secret_view(*self),
    {
        secrecy::ExposeSecret::expose_secret(&self.inner)
    }

    /// Returns the number of secret bytes.
    pub fn len(&self) -> (n: usize)
        ensures
            n == self@.len(),
    {
        self.expose_secret().len()
    }
}

impl Clone for SecretBytes {
    /// Clones the secret into a fresh zero-on-release container.
    fn clone(&self) -> (r: Self)
        ensures
            r@ == self@,
    {
        let bytes = vstd::slice::slice_to_vec(self.expose_secret().as_slice());
        SecretBytes::new(bytes)
    }
}

} // verus!
