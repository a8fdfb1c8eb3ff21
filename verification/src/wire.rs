//! The frames a session puts on the wire.
//!
//! Every frame starts with its kind and the tag of the handshake variant.
//! A hello goes on with the credential it presents and a nonce, a key message
//! with a nonce, a data frame with its counter; each of these three ends in a
//! sealed box which authenticates everything before it. A bootstrap frame
//! carries its payload in the clear.
use vstd::prelude::*;
use vstd::bytes::{spec_u64_to_le_bytes, u64_to_le_bytes};
use crate::bytes::append;

verus! {

/// First byte of a hello.
pub const KIND_HELLO: u8 = 1;

/// First byte of a key message.
pub const KIND_KEY: u8 = 2;

/// First byte of a data frame.
pub const KIND_DATA: u8 = 3;

/// First byte of a bootstrap frame.
pub const KIND_BOOTSTRAP: u8 = 4;

/// Length of what every frame starts with.
pub const FRAME_HEADER_LEN: usize = 2;

/// Length of a hello up to its box.
pub const HELLO_HEADER_LEN: usize = 23;

/// Length of a hello.
pub const HELLO_LEN: usize = 71;

/// Length of a key message up to its box.
pub const KEY_HEADER_LEN: usize = 14;

/// Length of a key message.
pub const KEY_MESSAGE_LEN: usize = 62;

/// Length of a data frame up to its box.
pub const DATA_HEADER_LEN: usize = 10;

/// Length of the fresh bytes one handshake message takes: a temporary
/// private key followed by a nonce.
pub const ENTROPY_LEN: usize = 44;

/// The handshake a session speaks, chosen when it is made.
#[derive(Debug, Clone, Copy, PartialEq, Eq, Structural)]
pub enum HandshakeVariant {
    /// Keys are derived from the shared secrets alone.
    Legacy,
    /// Keys are bound to the permanent keys of both peers as well.
    Alternate,
}

impl HandshakeVariant {
    /// The byte that names the variant in a frame.
    pub open spec fn tag_spec(self) -> u8 {
        match self {
            HandshakeVariant::Legacy => 0,
            HandshakeVariant::Alternate => 1,
        }
    }

    /// The byte that names the variant in a frame.
    #[verifier::when_used_as_spec(tag_spec)]
    pub fn tag(self) -> (tag: u8)
        ensures
            tag == self.tag_spec(),
    {
        match self {
            HandshakeVariant::Legacy => 0,
            HandshakeVariant::Alternate => 1,
        }
    }
}

/// What a hello holds before its box.
pub open spec fn hello_header(variant: HandshakeVariant, auth_type: u8, tag: Seq<u8>, nonce: Seq<u8>) -> Seq<u8> {
    seq![KIND_HELLO, variant.tag_spec(), auth_type] + tag + nonce
}

/// What a key message holds before its box.
pub open spec fn key_header(variant: HandshakeVariant, nonce: Seq<u8>) -> Seq<u8> {
    seq![KIND_KEY, variant.tag_spec()] + nonce
}

/// What a data frame holds before its box.
pub open spec fn data_header(variant: HandshakeVariant, counter: u64) -> Seq<u8> {
    seq![KIND_DATA, variant.tag_spec()] + spec_u64_to_le_bytes(counter)
}

/// The nonce of a data frame, from the eight bytes of its counter.
pub open spec fn data_nonce(counter_bytes: Seq<u8>) -> Seq<u8> {
    counter_bytes + seq![0u8, 0u8, 0u8, 0u8]
}

/// A bootstrap frame: the payload behind the frame header, in the clear.
pub open spec fn bootstrap_frame(variant: HandshakeVariant, payload: Seq<u8>) -> Seq<u8> {
    seq![KIND_BOOTSTRAP, variant.tag_spec()] + payload
}

/// Builds what a hello holds before its box.
pub fn build_hello_header(variant: HandshakeVariant, auth_type: u8, tag: &[u8; 8], nonce: &[u8; 12]) -> (header: Vec<u8>)
    ensures
        header@ == hello_header(variant, auth_type, tag@, nonce@),
        header@.len() == HELLO_HEADER_LEN,
{
    let mut header: Vec<u8> = Vec::new();
    header.push(KIND_HELLO);
    header.push(variant.tag());
    header.push(auth_type);
    assert(header@ =~= seq![KIND_HELLO, variant.tag_spec(), auth_type]);
    append(&mut header, tag.as_slice());
    append(&mut header, nonce.as_slice());
    header
}

/// Builds what a key message holds before its box.
pub fn build_key_header(variant: HandshakeVariant, nonce: &[u8; 12]) -> (header: Vec<u8>)
    ensures
        header@ == key_header(variant, nonce@),
        header@.len() == KEY_HEADER_LEN,
{
    let mut header: Vec<u8> = Vec::new();
    header.push(KIND_KEY);
    header.push(variant.tag());
    assert(header@ =~= seq![KIND_KEY, variant.tag_spec()]);
    append(&mut header, nonce.as_slice());
    header
}

/// Builds what a data frame holds before its box.
pub fn build_data_header(variant: HandshakeVariant, counter: u64) -> (header: Vec<u8>)
    ensures
        header@ == data_header(variant, counter),
        header@.len() == DATA_HEADER_LEN,
{
    let mut header: Vec<u8> = Vec::new();
    header.push(KIND_DATA);
    header.push(variant.tag());
    assert(header@ =~= seq![KIND_DATA, variant.tag_spec()]);
    let counter_bytes = u64_to_le_bytes(counter);
    append(&mut header, counter_bytes.as_slice());
    header
}

/// Builds the nonce of a data frame from the eight bytes of its counter.
pub fn build_data_nonce(counter_bytes: &[u8]) -> (nonce: [u8; 12])
    requires
        counter_bytes@.len() == 8,
    ensures
        nonce@ == data_nonce(counter_bytes@),
{
    let mut nonce = [0u8; 12];
    let mut i: usize = 0;
    while i < 8
        invariant
            i <= 8,
            counter_bytes@.len() == 8,
            forall|j: int| 0 <= j < i ==> nonce@[j] == counter_bytes@[j],
            forall|j: int| i <= j < 12 ==> nonce@[j] == 0,
        decreases 8 - i,
    {
        nonce[i] = counter_bytes[i];
        i += 1;
    }
    assert(nonce@ =~= data_nonce(counter_bytes@));
    nonce
}

/// Builds a bootstrap frame.
pub fn build_bootstrap_frame(variant: HandshakeVariant, payload: &[u8]) -> (frame: Vec<u8>)
    ensures
        frame@ == bootstrap_frame(variant, payload@),
{
    let mut frame: Vec<u8> = Vec::new();
    frame.push(KIND_BOOTSTRAP);
    frame.push(variant.tag());
    assert(frame@ =~= seq![KIND_BOOTSTRAP, variant.tag_spec()]);
    append(&mut frame, payload);
    frame
}

} // verus!
