//! The two keys of an onion service, each a nominal type of its own.
//!
//! A secret key is 64 bytes and a public key is 32; neither type says more.
//! Whether the bytes are a key that the curve accepts is for whoever uses
//! them to decide.

use vstd::prelude::*;

verus! {

/// The number of bytes of a secret key.
pub const SECRET_KEY_LEN: usize = 64;

/// The number of bytes of a public key.
pub const PUBLIC_KEY_LEN: usize = 32;

/// An expanded secret key: exactly 64 bytes, in their given order.
#[derive(PartialEq, Eq)]
pub struct TorSecretKeyV3 {
    bytes: [u8; 64],
}

/// A public key: exactly 32 bytes, in their given order.
#[derive(Clone, Copy, Debug, PartialEq, Eq)]
pub struct TorPublicKeyV3 {
    bytes: [u8; 32],
}

impl View for TorSecretKeyV3 {
    type V = Seq<u8>;

    closed spec fn view(&self) -> Seq<u8> {
        self.bytes@
    }
}

impl View for TorPublicKeyV3 {
    type V = Seq<u8>;

    closed spec fn view(&self) -> Seq<u8> {
        self.bytes@
    }
}

impl Clone for TorSecretKeyV3 {
    fn clone(&self) -> (key: Self)
        ensures
            key == *self,
    {
        TorSecretKeyV3 { bytes: self.bytes }
    }
}

impl TorSecretKeyV3 {
    /// A secret key has 64 bytes.
    pub proof fn lemma_len(self)
        ensures
            self@.len() == SECRET_KEY_LEN,
    {
    }

    /// Two secret keys of the same bytes are the same key.
    pub proof fn lemma_same_bytes(self, other: Self)
        requires
            self@ == other@,
        ensures
            self == other,
    {
        assert(self.bytes =~= other.bytes);
    }

    /// The key that holds `bytes`.
    pub fn from_bytes(bytes: [u8; 64]) -> (key: Self)
        ensures
            key@ == bytes@,
    {
        TorSecretKeyV3 { bytes }
    }

    /// The bytes of the key.
    pub fn as_bytes(&self) -> (bytes: &[u8; 64])
        ensures
            bytes@ == self@,
    {
        &self.bytes
    }

    /// The bytes of the key, by value.
    pub fn into_bytes(self) -> (bytes: [u8; 64])
        ensures
            bytes@ == self@,
    {
        self.bytes
    }
}

impl TorPublicKeyV3 {
    /// A public key has 32 bytes.
    pub proof fn lemma_len(self)
        ensures
            self@.len() == PUBLIC_KEY_LEN,
    {
    }

    /// Two public keys of the same bytes are the same key.
    pub proof fn lemma_same_bytes(self, other: Self)
        requires
            self@ == other@,
        ensures
            self == other,
    {
        assert(self.bytes =~= other.bytes);
    }

    /// The key that holds `bytes`.
    pub fn from_bytes(bytes: [u8; 32]) -> (key: Self)
        ensures
            key@ == bytes@,
    {
        TorPublicKeyV3 { bytes }
    }

    /// The bytes of the key.
    pub fn as_bytes(&self) -> (bytes: &[u8; 32])
        ensures
            bytes@ == self@,
    {
        &self.bytes
    }

    /// The bytes of the key, by value.
    pub fn to_bytes(&self) -> (bytes: [u8; 32])
        ensures
            bytes@ == self@,
    {
        self.bytes
    }
}

} // verus!
