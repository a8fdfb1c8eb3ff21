//! The cryptographic primitives the engine is built on.
//!
//! Nothing in this module is proved: each function hands its arguments to an
//! outside crate, and its contract gives the result a name so that the rest of
//! the library can say exactly which primitive was applied to which bytes.
use vstd::prelude::*;

verus! {

/// The value of the X25519 function of RFC 7748 on a scalar and a u-coordinate.
pub uninterp spec fn x25519_output(scalar: Seq<u8>, point: Seq<u8>) -> Seq<u8>;

/// The SHA-512 digest of a byte string.
pub uninterp spec fn sha512_digest(data: Seq<u8>) -> Seq<u8>;

/// What ChaCha20-Poly1305 sealing yields: the ciphertext followed by its tag,
/// or `None` where the cipher refuses the message.
pub uninterp spec fn aead_sealed(key: Seq<u8>, nonce: Seq<u8>, aad: Seq<u8>, msg: Seq<u8>) -> Option<Seq<u8>>;

/// What ChaCha20-Poly1305 opening yields: the message, or `None` where the
/// tag does not authenticate the box and the associated data under the key.
pub uninterp spec fn aead_opened(key: Seq<u8>, nonce: Seq<u8>, aad: Seq<u8>, boxed: Seq<u8>) -> Option<Seq<u8>>;

/// Calls `x25519_dalek::x25519`. Trusted: the result is the X25519 function of
/// the two arguments, which depends on nothing else.
#[verifier::external_body]
pub(crate) fn x25519(scalar: &[u8; 32], point: &[u8; 32]) -> (out: [u8; 32])
    ensures
        out@ == x25519_output(scalar@, point@),
{
    x25519_dalek::x25519(*scalar, *point)
}

/// Calls `sha2::Sha512::digest`. Trusted: the result is the 64-byte SHA-512
/// digest of `data`.
#[verifier::external_body]
pub(crate) fn sha512(data: &[u8]) -> (out: [u8; 64])
    ensures
        out@ == sha512_digest(data@),
{
    <sha2::Sha512 as sha2::Digest>::digest(data).into()
}

/// The longest message the engine hands to the cipher, in bytes. The cipher
/// runs out of keystream a little under 256 GiB; this bound lies far below
/// and fits every `usize`.
pub const MAX_SEALED_LEN: usize = 0xFFFF_FFFF;

/// Calls `encrypt` of `chacha20poly1305::ChaCha20Poly1305`. Trusted: a
/// message of at most `MAX_SEALED_LEN` bytes is sealed; the result is the
/// sealed box of `msg` under `key` and `nonce`, bound to `aad`; the box is
/// the ciphertext followed by the sixteen bytes of its tag, and `decrypt`
/// with the same key, nonce and associated data opens it to `msg`.
#[verifier::external_body]
pub(crate) fn aead_seal(key: &[u8; 32], nonce: &[u8; 12], aad: &[u8], msg: &[u8]) -> (out: Option<Vec<u8>>)
    requires
        msg@.len() <= MAX_SEALED_LEN,
    ensures
        out is Some,
        out matches Some(boxed) ==> aead_sealed(key@, nonce@, aad@, msg@) == Some(boxed@),
        out matches Some(boxed) ==> boxed@.len() == msg@.len() + 16,
        out matches Some(boxed) ==> aead_opened(key@, nonce@, aad@, boxed@) == Some(msg@),
{
    let cipher = <chacha20poly1305::ChaCha20Poly1305 as chacha20poly1305::KeyInit>::new(key.into());
    let payload = chacha20poly1305::aead::Payload { msg, aad };
    match chacha20poly1305::aead::Aead::encrypt(&cipher, nonce.into(), payload) {
        Ok(boxed) => Some(boxed),
        Err(_) => None,
    }
}

/// Calls `decrypt` of `chacha20poly1305::ChaCha20Poly1305`, on a box of a
/// message of at most `MAX_SEALED_LEN` bytes. Trusted: the result is the
/// opening of `boxed` under `key` and `nonce` with `aad`.
#[verifier::external_body]
pub(crate) fn aead_open(key: &[u8; 32], nonce: &[u8; 12], aad: &[u8], boxed: &[u8]) -> (out: Option<Vec<u8>>)
    requires
        boxed@.len() <= MAX_SEALED_LEN + 16,
    ensures
        out matches Some(msg) ==> aead_opened(key@, nonce@, aad@, boxed@) == Some(msg@),
        out is None ==> aead_opened(key@, nonce@, aad@, boxed@) is None,
{
    let cipher = <chacha20poly1305::ChaCha20Poly1305 as chacha20poly1305::KeyInit>::new(key.into());
    let payload = chacha20poly1305::aead::Payload { msg: boxed, aad };
    match chacha20poly1305::aead::Aead::decrypt(&cipher, nonce.into(), payload) {
        Ok(msg) => Some(msg),
        Err(_) => None,
    }
}

} // verus!
