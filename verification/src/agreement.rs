//! What two sessions that face each other agree on.
//!
//! That a data frame delivers its payload to every session its sender is in
//! step with is proved outright ([`carried_payload_is_delivered`]); the
//! session states it of each frame it seals. That a handshake leaves two
//! sessions in step is proved provided the primitives do what cryptography
//! asks of them, above all that the key exchange agrees. Nothing of that
//! kind is assumed: what is needed stands in [`primitives_behave`], as a
//! hypothesis of the laws that need it.
use vstd::prelude::*;
use vstd::bytes::{lemma_auto_spec_u64_to_from_le_bytes, spec_u64_from_le_bytes, spec_u64_to_le_bytes};
use crate::credentials::{password_secret, secret_for, EntryView};
use crate::handshake::{
    auth_secret_of, auth_tag_of, auth_type_of, derived_key, hello_message, key_message, LABEL_HELLO,
    LABEL_KEY,
};
use crate::keys::public_key_of;
use crate::model::{max_data_frame_len, Phase, SessionView};
use crate::primitives::{aead_opened, aead_sealed, sha512_digest, x25519_output, MAX_SEALED_LEN};
use crate::wire::{
    data_header, data_nonce, hello_header, key_header, DATA_HEADER_LEN, ENTROPY_LEN, HELLO_LEN,
    KEY_MESSAGE_LEN,
};

verus! {

/// What the engine needs of its primitives: digests and exchanged secrets
/// have their lengths; the two holders of a key pair each derive the same
/// secret from their own private key and the other's public key; a sealed
/// box is sixteen bytes longer than its message and opens to it under the
/// same key, nonce and associated data; and a message of at most
/// `MAX_SEALED_LEN` bytes is sealed.
pub open spec fn primitives_behave() -> bool {
    &&& forall|data: Seq<u8>| (#[trigger] sha512_digest(data)).len() == 64
    &&& forall|scalar: Seq<u8>, point: Seq<u8>| (#[trigger] x25519_output(scalar, point)).len() == 32
    &&& forall|a: Seq<u8>, b: Seq<u8>| #[trigger]
        x25519_output(a, public_key_of(b)) == x25519_output(b, public_key_of(a))
    &&& forall|key: Seq<u8>, nonce: Seq<u8>, aad: Seq<u8>, msg: Seq<u8>|
        (#[trigger] aead_sealed(key, nonce, aad, msg)) matches Some(boxed) ==> boxed.len() == msg.len() + 16
            && aead_opened(key, nonce, aad, boxed) == Some(msg)
    &&& forall|key: Seq<u8>, nonce: Seq<u8>, aad: Seq<u8>, msg: Seq<u8>|
        msg.len() <= MAX_SEALED_LEN ==> (#[trigger] aead_sealed(key, nonce, aad, msg)) is Some
}

/// Each of the two sessions was made with the other's public key, and both
/// speak the same handshake.
pub open spec fn face_each_other(a: SessionView, b: SessionView) -> bool {
    &&& a.wf()
    &&& b.wf()
    &&& a.her_public == b.our_public
    &&& b.her_public == a.our_public
    &&& a.variant == b.variant
}

/// The node of `b` accepts what `a` presents: no credential where `b`
/// requires none, else a credential whose first match in the store of `b`
/// holds the same password.
pub open spec fn credential_is_accepted(a: SessionView, b: SessionView, store: Seq<EntryView>) -> bool {
    match a.auth {
        None => !b.require_auth,
        Some(c) => secret_for(store, auth_type_of(a.auth), auth_tag_of(a.auth), b.her_address) == Some(
            password_secret(c.password),
        ),
    }
}

/// `x` sends to `y` in step: `x` is established and seals under the key `y`
/// opens with, and `y` has not gone past the counter of `x`.
pub open spec fn sends_in_step(x: SessionView, y: SessionView) -> bool {
    &&& x.phase == Phase::Established
    &&& (y.phase == Phase::Established || y.phase == Phase::SentKey)
    &&& x.variant == y.variant
    &&& x.send_key == y.recv_key
    &&& x.send_counter >= y.recv_floor
}

/// `frame` is a data frame of `x` that carries `payload`: it starts with the
/// header of the counter `x` is at, and its box opens to `payload` under
/// the key `x` seals with.
pub open spec fn carries(x: SessionView, frame: Seq<u8>, payload: Seq<u8>) -> bool {
    &&& DATA_HEADER_LEN <= frame.len() <= max_data_frame_len()
    &&& frame.subrange(0, 10) == data_header(x.variant, x.send_counter)
    &&& aead_opened(
        x.send_key,
        data_nonce(frame.subrange(2, 10)),
        frame.subrange(0, 10),
        frame.subrange(10, frame.len() as int),
    ) == Some(payload)
}

/// Every session that `x` sends to in step hands on exactly `payload` when
/// `frame` enters its ciphertext endpoint, reports no fault and is
/// established from then on.
pub open spec fn delivers(x: SessionView, frame: Seq<u8>, payload: Seq<u8>) -> bool {
    forall|y: SessionView, store: Seq<EntryView>, now: u64, entropy: Option<Seq<u8>>|
        sends_in_step(x, y) ==> {
            let (y1, got) = #[trigger] y.after_inbound(store, frame, now, entropy);
            &&& got.plaintext == Some(payload)
            &&& got.fault is None
            &&& y1.phase == Phase::Established
        }
}

/// A data frame of `x` that carries a payload delivers it.
pub proof fn carried_payload_is_delivered(x: SessionView, frame: Seq<u8>, payload: Seq<u8>)
    requires
        carries(x, frame, payload),
        x.send_counter < u64::MAX,
    ensures
        delivers(x, frame, payload),
{
    lemma_auto_spec_u64_to_from_le_bytes();
    let header = data_header(x.variant, x.send_counter);
    assert(header.len() == 10);
    assert(header.subrange(2, 10) =~= spec_u64_to_le_bytes(x.send_counter));
    assert(frame.subrange(2, 10) =~= frame.subrange(0, 10).subrange(2, 10));
    assert(frame[0] == frame.subrange(0, 10)[0]);
    assert(frame[1] == frame.subrange(0, 10)[1]);
    assert(spec_u64_from_le_bytes(frame.subrange(2, 10)) == x.send_counter);
}

/// A data frame that `x` seals is opened by `y`, which hands on the payload,
/// is established from then on and stays in step with `x`; and where `y` was
/// on the way to send to `x` in step, it is so afterwards.
pub proof fn sealed_data_is_delivered(
    x: SessionView,
    y: SessionView,
    store: Seq<EntryView>,
    payload: Seq<u8>,
    now: u64,
    entropy: Option<Seq<u8>>,
)
    requires
        primitives_behave(),
        sends_in_step(x, y),
        x.send_counter < u64::MAX,
        payload.len() <= MAX_SEALED_LEN,
    ensures
        x.sealed_data(payload) is Some,
        ({
            let (x1, frame) = x.sealed_data(payload)->0;
            let (y1, got) = y.after_inbound(store, frame, now, entropy);
            &&& got.plaintext == Some(payload)
            &&& got.fault is None
            &&& y1.phase == Phase::Established
            &&& y1.last_activity == now
            &&& sends_in_step(x1, y1)
            &&& (y.send_key == x.recv_key && y.send_counter >= x.recv_floor ==> sends_in_step(y1, x1))
        }),
{
    lemma_auto_spec_u64_to_from_le_bytes();
    let counter = x.send_counter;
    let header = data_header(x.variant, counter);
    let counter_bytes = spec_u64_to_le_bytes(counter);
    assert(header.len() == 10);
    assert(header.subrange(2, 10) =~= counter_bytes);
    let nonce = data_nonce(header.subrange(2, 10));
    let sealed = aead_sealed(x.send_key, nonce, header, payload);
    assert(sealed is Some);
    let boxed = sealed->0;
    let frame = header + boxed;
    assert(frame.subrange(0, 10) =~= header);
    assert(frame.subrange(2, 10) =~= counter_bytes);
    assert(frame.subrange(10, frame.len() as int) =~= boxed);
    assert(spec_u64_from_le_bytes(frame.subrange(2, 10)) == counter);
    assert(aead_opened(y.recv_key, data_nonce(frame.subrange(2, 10)), frame.subrange(0, 10), boxed) == Some(payload));
}

/// Once two sessions are in step, what enters the plaintext endpoint of one
/// leaves the plaintext endpoint of the other, byte for byte.
pub proof fn established_sessions_deliver(
    x: SessionView,
    y: SessionView,
    store: Seq<EntryView>,
    payload: Seq<u8>,
    entropy_x: Option<Seq<u8>>,
    now: u64,
    entropy_y: Option<Seq<u8>>,
)
    requires
        primitives_behave(),
        sends_in_step(x, y),
        x.send_counter < u64::MAX,
        payload.len() <= MAX_SEALED_LEN,
    ensures
        ({
            let (x1, sent) = x.after_outbound(payload, entropy_x);
            &&& sent.ciphertext is Some
            &&& sent.handshake is None
            &&& ({
                let (y1, got) = y.after_inbound(store, sent.ciphertext->0, now, entropy_y);
                &&& got.plaintext == Some(payload)
                &&& y1.phase == Phase::Established
                &&& sends_in_step(x1, y1)
                &&& (y.send_key == x.recv_key && y.send_counter >= x.recv_floor ==> sends_in_step(y1, x1))
            })
        }),
{
    sealed_data_is_delivered(x, y, store, payload, now, entropy_y);
}

/// The hello of an initiator is answered by a responder that accepts its
/// credential, and the key message establishes the initiator: from then on
/// each of the two seals under the key the other opens with.
pub proof fn handshake_establishes(
    a: SessionView,
    b: SessionView,
    store_a: Seq<EntryView>,
    store_b: Seq<EntryView>,
    first: Seq<u8>,
    entropy_a: Seq<u8>,
    entropy_b: Seq<u8>,
    hello_at: u64,
    key_at: u64,
    spare: Option<Seq<u8>>,
)
    requires
        primitives_behave(),
        face_each_other(a, b),
        a.phase == Phase::Init,
        b.phase == Phase::Init,
        credential_is_accepted(a, b, store_b),
        entropy_a.len() == ENTROPY_LEN,
        entropy_b.len() == ENTROPY_LEN,
        first.len() <= MAX_SEALED_LEN,
    ensures
        ({
            let (a1, sent) = a.after_outbound(first, Some(entropy_a));
            &&& sent.handshake is Some
            &&& a1.phase == Phase::SentHello
            &&& ({
                let (b1, answered) = b.after_inbound(store_b, sent.handshake->0, hello_at, Some(entropy_b));
                &&& answered.handshake is Some
                &&& answered.plaintext is None
                &&& b1.phase == Phase::SentKey
                &&& ({
                    let (a2, confirmed) = a1.after_inbound(store_a, answered.handshake->0, key_at, spare);
                    &&& a2.phase == Phase::Established
                    &&& confirmed.fault is None
                    &&& sends_in_step(a2, b1)
                    &&& a2.recv_key == b1.send_key
                    &&& a.require_auth ==> confirmed.ciphertext is Some && ({
                        let (b2, got) = b1.after_inbound(store_b, confirmed.ciphertext->0, key_at, spare);
                        &&& got.plaintext == Some(first)
                        &&& sends_in_step(a2, b2)
                        &&& sends_in_step(b2, a2)
                    })
                })
            })
        }),
{
    let pa = a.our_public;
    let pb = b.our_public;
    let secret = auth_secret_of(a.auth);
    let temp_a = entropy_a.subrange(0, 32);
    let nonce_a = entropy_a.subrange(32, 44);
    let temp_b = entropy_b.subrange(0, 32);
    let nonce_b = entropy_b.subrange(32, 44);
    let static_a = x25519_output(a.our_private, a.her_public);
    let static_b = x25519_output(b.our_private, b.her_public);
    assert(static_a == static_b) by {
        assert(x25519_output(a.our_private, public_key_of(b.our_private)) == x25519_output(
            b.our_private,
            public_key_of(a.our_private),
        ));
    }

    // The hello.
    let hello_head = hello_header(a.variant, auth_type_of(a.auth), auth_tag_of(a.auth), nonce_a);
    assert(auth_tag_of(a.auth).len() == 8);
    assert(hello_head.len() == 23);
    let hello_key = derived_key(LABEL_HELLO, a.variant, pa, pb, static_a, secret);
    let hello_box = aead_sealed(hello_key, nonce_a, hello_head, public_key_of(temp_a));
    assert(public_key_of(temp_a).len() == 32);
    assert(hello_box is Some);
    let hello = hello_head + hello_box->0;
    assert(hello_message(a.variant, a.auth, a.our_private, pa, a.her_public, temp_a, nonce_a) == Some(hello));
    let (a1, sent) = a.after_outbound(first, Some(entropy_a));
    assert(sent.handshake == Some(hello));
    assert(hello.len() == HELLO_LEN);
    assert(hello.subrange(0, 23) =~= hello_head);
    assert(hello.subrange(3, 11) =~= auth_tag_of(a.auth));
    assert(hello.subrange(11, 23) =~= nonce_a);
    assert(hello.subrange(23, hello.len() as int) =~= hello_box->0);
    assert(hello[2] == auth_type_of(a.auth));
    assert(b.hello_secret(store_b, hello) == Some(secret));
    assert(aead_opened(hello_key, nonce_a, hello_head, hello_box->0) == Some(public_key_of(temp_a)));

    // The key message.
    let her_temp = public_key_of(temp_a);
    let key_head = key_header(b.variant, nonce_b);
    assert(key_head.len() == 14);
    let reply_b = x25519_output(b.our_private, her_temp);
    let reply_a = x25519_output(temp_a, a.her_public);
    assert(reply_a == reply_b) by {
        assert(x25519_output(temp_a, public_key_of(b.our_private)) == x25519_output(
            b.our_private,
            public_key_of(temp_a),
        ));
    }
    let reply_key = derived_key(LABEL_KEY, b.variant, pa, pb, reply_b, secret);
    let key_box = aead_sealed(reply_key, nonce_b, key_head, public_key_of(temp_b));
    assert(public_key_of(temp_b).len() == 32);
    assert(key_box is Some);
    let key = key_head + key_box->0;
    assert(key_message(b.variant, secret, b.our_private, pb, b.her_public, her_temp, temp_b, nonce_b) == Some(key));
    let (b1, answered) = b.after_inbound(store_b, hello, hello_at, Some(entropy_b));
    assert(answered.handshake == Some(key));
    assert(b1.phase == Phase::SentKey);
    assert(key.len() == KEY_MESSAGE_LEN);
    assert(key.subrange(0, 14) =~= key_head);
    assert(key.subrange(2, 14) =~= nonce_b);
    assert(key.subrange(14, key.len() as int) =~= key_box->0);
    assert(aead_opened(reply_key, nonce_b, key_head, key_box->0) == Some(public_key_of(temp_b)));

    // The session keys.
    let shared_a = x25519_output(temp_a, public_key_of(temp_b));
    let shared_b = x25519_output(temp_b, her_temp);
    assert(shared_a == shared_b);
    assert(a1.temp_private == Some(temp_a));
    assert(a1.auth == a.auth);
    let (a2, confirmed) = a1.after_inbound(store_a, key, key_at, spare);
    assert(a2.phase == Phase::Established);
    assert(a2.send_key == b1.recv_key);
    assert(a2.recv_key == b1.send_key);
    if a.require_auth {
        let opened = SessionView {
            phase: Phase::Established,
            temp_private: None,
            sent_handshake: None,
            answered_hello: None,
            send_key: b1.recv_key,
            recv_key: b1.send_key,
            send_counter: 0,
            recv_floor: 0,
            last_activity: key_at,
            ..a1
        };
        assert(a1.pending == Some(first));
        assert(sends_in_step(opened, b1));
        sealed_data_is_delivered(opened, b1, store_b, first, key_at, spare);
        assert(opened.flushed().1 is Some);
        assert(confirmed.ciphertext == opened.flushed().1);
    }
}

} // verus!
