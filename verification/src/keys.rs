//! Long-term keys and the addresses derived from them.
use vstd::prelude::*;
use crate::bytes::{all_zero, is_all_zero};
use crate::primitives::{sha512, sha512_digest, x25519, x25519_output};

verus! {

/// Length of a private or public key, in bytes.
pub const KEY_LEN: usize = 32;

/// Length of a peer address, in bytes.
pub const ADDRESS_LEN: usize = 16;

/// The X25519 base point: the u-coordinate 9.
pub open spec fn basepoint() -> Seq<u8> {
    Seq::new(32, |i: int| if i == 0 { 9u8 } else { 0u8 })
}

/// The public key that belongs to a private key.
pub open spec fn public_key_of(private: Seq<u8>) -> Seq<u8> {
    x25519_output(private, basepoint())
}

/// The address of the holder of a public key: the first sixteen bytes of the
/// key's digest, hashed twice.
pub open spec fn address_of(public: Seq<u8>) -> Seq<u8> {
    sha512_digest(sha512_digest(public)).subrange(0, 16)
}

/// A peer key is accepted when it has the length of a key and the secret it
/// shares with our private key is not the all-zero string, which is what
/// the identity and every other low-order point yield.
pub open spec fn valid_peer_key(our_private: Seq<u8>, key: Seq<u8>) -> bool {
    key.len() == 32 && !all_zero(x25519_output(our_private, key))
}

/// Derives the public key of `private`.
pub fn derive_public_key(private: &[u8; 32]) -> (public: [u8; 32])
    ensures
        public@ == public_key_of(private@),
{
    let mut base = [0u8; 32];
    base[0] = 9;
    assert(base@ =~= basepoint());
    x25519(private, &base)
}

/// Derives the address of the holder of `public`.
pub fn derive_address(public: &[u8; 32]) -> (address: [u8; 16])
    ensures
        address@ == address_of(public@),
{
    let once = sha512(public.as_slice());
    let twice = sha512(once.as_slice());
    crate::bytes::array_at::<16>(twice.as_slice(), 0)
}

/// Whether `key` may stand for a peer of the holder of `our_private`.
pub fn check_peer_key(our_private: &[u8; 32], key: &[u8]) -> (valid: bool)
    ensures
        valid == valid_peer_key(our_private@, key@),
{
    if key.len() != 32 {
        return false;
    }
    let point = crate::bytes::array_at::<32>(key, 0);
    assert(point@ =~= key@);
    let shared = x25519(our_private, &point);
    !is_all_zero(shared.as_slice())
}

/// A private key together with the public key derived from it.
pub struct KeyPair {
    private: [u8; 32],
    public: [u8; 32],
}

impl KeyPair {
    #[verifier::type_invariant]
    spec fn derived(self) -> bool {
        self.public@ == public_key_of(self.private@)
    }

    /// The private half, as bytes.
    pub closed spec fn private_bytes(&self) -> Seq<u8> {
        self.private@
    }

    /// The public half, as bytes.
    pub closed spec fn public_bytes(&self) -> Seq<u8> {
        self.public@
    }

    /// The pair that belongs to `private`.
    pub fn from_private(private: [u8; 32]) -> (pair: KeyPair)
        ensures
            pair.private_bytes() == private@,
            pair.public_bytes() == public_key_of(private@),
    {
        let public = derive_public_key(&private);
        KeyPair { private, public }
    }

    /// The public key; it is a function of the private key alone.
    pub fn public_key(&self) -> (public: [u8; 32])
        ensures
            public@ == self.public_bytes(),
            public@ == public_key_of(self.private_bytes()),
    {
        proof {
            use_type_invariant(self);
        }
        self.public
    }

    /// The private key.
    pub fn private_key(&self) -> (private: [u8; 32])
        ensures
            private@ == self.private_bytes(),
    {
        self.private
    }
}

} // verus!
