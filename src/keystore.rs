//! Public keys and the holder of the local permanent key.

use vstd::prelude::*;

verus! {

/// A 32-byte public key.
#[derive(Clone, Copy, Debug, PartialEq, Eq)]
pub struct PublicKey {
    pub bytes: [u8; 32],
}

impl View for PublicKey {
    type V = Seq<u8>;

    open spec fn view(&self) -> Seq<u8> {
        self.bytes@
    }
}

impl PublicKey {
    pub fn from_bytes(bytes: [u8; 32]) -> (r: PublicKey)
        ensures
            r.bytes == bytes,
    {
        PublicKey { bytes }
    }
}

/// Holds the local permanent key pair's public half for one connection.
/// Sealing and opening with the matching secret key happen outside this
/// library.
#[derive(Debug)]
pub struct KeyStore {
    public_key: PublicKey,
}

impl KeyStore {
    /// The public key held by this store.
    pub closed spec fn spec_public_key(&self) -> PublicKey {
        self.public_key
    }

    pub fn from_public_key(public_key: PublicKey) -> (r: KeyStore)
        ensures
            r.spec_public_key() == public_key,
    {
        KeyStore { public_key }
    }

    pub fn public_key(&self) -> (r: &PublicKey)
        ensures
            *r == self.spec_public_key(),
    {
        &self.public_key
    }
}

} // verus!
