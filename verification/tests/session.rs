use cryptoauth::context::CryptoAuth;
use cryptoauth::model::{Phase, ProtocolFault, State, RESET_AFTER_INACTIVITY_MS};
use cryptoauth::primitives::MAX_SEALED_LEN;
use cryptoauth::session::{Emitted, Session, SessionError};
use cryptoauth::wire::{
    HandshakeVariant, HELLO_LEN, KEY_MESSAGE_LEN, KIND_BOOTSTRAP, KIND_DATA, KIND_HELLO, KIND_KEY,
};

const PASSWORD: &[u8] = b"correct horse";
const LOGIN: &[u8] = b"alice";

fn entropy(seed: u8) -> Option<Vec<u8>> {
    Some((0..44u8).map(|i| i.wrapping_mul(13).wrapping_add(seed)).collect())
}

fn contexts() -> (CryptoAuth, CryptoAuth) {
    let a = CryptoAuth::with_private_key([0x11; 32]);
    let mut b = CryptoAuth::with_private_key([0x22; 32]);
    b.add_user(PASSWORD.to_vec(), Some(LOGIN.to_vec()), None).unwrap();
    (a, b)
}

fn session(own: &CryptoAuth, peer: &CryptoAuth, require_auth: bool, variant: HandshakeVariant) -> Session {
    Session::new_at(own.keys(), &peer.get_public_key(), require_auth, None, variant, 0).unwrap()
}

fn nothing(out: &Emitted) -> bool {
    out.plaintext.is_none() && out.handshake.is_none() && out.ciphertext.is_none()
}

/// Runs the handshake between an initiator `a` that presents the shared
/// credential and a responder `b`, and returns the first payload as `b`
/// received it.
fn establish(ca: &CryptoAuth, cb: &CryptoAuth, a: &mut Session, b: &mut Session, first: &[u8]) -> Vec<u8> {
    a.set_auth(Some(PASSWORD.to_vec()), Some(LOGIN.to_vec()));
    let sent = a.handle_outbound(first, entropy(1));
    assert!(sent.ciphertext.is_none() && sent.plaintext.is_none());
    let hello = sent.handshake.unwrap();
    assert_eq!(a.phase(), Phase::SentHello);
    let answered = b.handle_inbound(cb.store(), &hello, 10, entropy(2));
    assert!(answered.plaintext.is_none() && answered.ciphertext.is_none() && answered.fault.is_none());
    let key = answered.handshake.unwrap();
    assert_eq!(b.phase(), Phase::SentKey);
    let confirmed = a.handle_inbound(ca.store(), &key, 20, None);
    assert!(confirmed.plaintext.is_none() && confirmed.handshake.is_none() && confirmed.fault.is_none());
    assert_eq!(a.phase(), Phase::Established);
    let frame = confirmed.ciphertext.unwrap();
    let delivered = b.handle_inbound(cb.store(), &frame, 30, None);
    assert!(delivered.fault.is_none() && delivered.handshake.is_none() && delivered.ciphertext.is_none());
    assert_eq!(b.phase(), Phase::Established);
    delivered.plaintext.unwrap()
}

fn end_to_end(variant: HandshakeVariant) {
    let (ca, cb) = contexts();
    let mut a = session(&ca, &cb, true, variant);
    let mut b = session(&cb, &ca, true, variant);
    assert_eq!(establish(&ca, &cb, &mut a, &mut b, b"first"), b"first".to_vec());
    assert_eq!(a.get_state(), State::Established);
    assert_eq!(b.get_state(), State::Established);
    let payload: Vec<u8> = (0..100u8).collect();
    let sent = a.handle_outbound(&payload, None);
    assert!(sent.handshake.is_none() && sent.plaintext.is_none());
    let frame = sent.ciphertext.unwrap();
    assert_eq!(frame.len(), 10 + 100 + 16);
    assert_eq!(frame[0], KIND_DATA);
    assert!(!frame.windows(payload.len()).any(|w| w == &payload[..]));
    let received = b.handle_inbound(cb.store(), &frame, 40, None);
    assert_eq!(received.plaintext, Some(payload.clone()));
    assert!(received.ciphertext.is_none() && received.handshake.is_none() && received.fault.is_none());
    let back = b.handle_outbound(&payload, None).ciphertext.unwrap();
    assert_ne!(back, frame);
    assert_eq!(a.handle_inbound(ca.store(), &back, 50, None).plaintext, Some(payload));
}

#[test]
fn end_to_end_legacy() {
    end_to_end(HandshakeVariant::Legacy);
}

#[test]
fn end_to_end_alternate() {
    end_to_end(HandshakeVariant::Alternate);
}

#[test]
fn end_to_end_without_credentials_when_not_required() {
    let ca = CryptoAuth::with_private_key([0x11; 32]);
    let cb = CryptoAuth::with_private_key([0x22; 32]);
    let mut a = session(&ca, &cb, false, HandshakeVariant::Legacy);
    let mut b = session(&cb, &ca, false, HandshakeVariant::Legacy);
    let sent = a.handle_outbound(b"early", entropy(1));
    let hello = sent.handshake.unwrap();
    let key = b.handle_inbound(cb.store(), &hello, 1, entropy(2)).handshake.unwrap();
    let confirmed = a.handle_inbound(ca.store(), &key, 2, None);
    assert_eq!(a.phase(), Phase::Established);
    assert!(confirmed.ciphertext.is_none());
    let frame = a.handle_outbound(b"sealed", None).ciphertext.unwrap();
    assert_eq!(b.handle_inbound(cb.store(), &frame, 3, None).plaintext, Some(b"sealed".to_vec()));
    assert_eq!(b.phase(), Phase::Established);
}

#[test]
fn password_without_login_authenticates() {
    let ca = CryptoAuth::with_private_key([0x11; 32]);
    let mut cb = CryptoAuth::with_private_key([0x22; 32]);
    cb.add_user(PASSWORD.to_vec(), None, None).unwrap();
    let mut a = session(&ca, &cb, true, HandshakeVariant::Alternate);
    let mut b = session(&cb, &ca, true, HandshakeVariant::Alternate);
    a.set_auth(Some(PASSWORD.to_vec()), None);
    let hello = a.handle_outbound(b"x", entropy(1)).handshake.unwrap();
    assert_eq!(hello[2], 1);
    let key = b.handle_inbound(cb.store(), &hello, 1, entropy(2)).handshake.unwrap();
    assert_eq!(a.handle_inbound(ca.store(), &key, 2, None).ciphertext.is_some(), true);
    assert_eq!(a.phase(), Phase::Established);
}

#[test]
fn new_session_starts_uninitialized() {
    let (ca, cb) = contexts();
    let s = Session::new_at(ca.keys(), &cb.get_public_key(), true, Some("peer".to_string()), HandshakeVariant::Legacy, 77)
        .unwrap();
    assert_eq!(s.get_state(), State::Uninitialized);
    assert_eq!(s.phase(), Phase::Init);
    assert_eq!(s.get_name(), Some("peer".to_string()));
    assert_eq!(s.get_her_public_key(), cb.get_public_key());
    assert!(s.requires_auth());
    assert_eq!(s.variant(), HandshakeVariant::Legacy);
    let stats = s.stats_at(100);
    assert_eq!(stats.bytes_sent, 0);
    assert_eq!(stats.bytes_received, 0);
    assert_eq!(stats.handshake_attempt_count, 0);
    assert_eq!(stats.time_since_last_receive, 23);
    assert_eq!(stats.state, State::Uninitialized);
    assert_eq!(s.stats_at(50).time_since_last_receive, 0);
}

#[test]
fn session_without_name_has_none() {
    let (ca, cb) = contexts();
    assert_eq!(session(&ca, &cb, false, HandshakeVariant::Legacy).get_name(), None);
}

#[test]
fn invalid_peer_key_is_refused() {
    let (ca, cb) = contexts();
    let good = cb.get_public_key();
    for bad in [&good[..31], &[0u8; 32][..], &[][..], &[9u8; 33][..]] {
        let made = Session::new_at(ca.keys(), bad, true, None, HandshakeVariant::Legacy, 0);
        assert!(matches!(made, Err(SessionError::InvalidPeerKey)));
    }
    assert!(Session::new_at(ca.keys(), &good, true, None, HandshakeVariant::Legacy, 0).is_ok());
}

#[test]
fn her_address_is_stable() {
    let (ca, cb) = contexts();
    let s = session(&ca, &cb, true, HandshakeVariant::Legacy);
    let t = session(&ca, &cb, false, HandshakeVariant::Alternate);
    let address = s.get_her_address();
    assert_eq!(address.len(), 16);
    assert_eq!(address, s.get_her_address());
    assert_eq!(address, t.get_her_address());
    assert_eq!(address, cryptoauth::keys::derive_address(&cb.get_public_key()));
    assert_ne!(address, session(&cb, &ca, true, HandshakeVariant::Legacy).get_her_address());
}

#[test]
fn bootstrap_mode_forwards_application_bytes() {
    let (ca, cb) = contexts();
    let mut a = session(&ca, &cb, false, HandshakeVariant::Legacy);
    let out = a.handle_outbound(b"hello there", entropy(1));
    let mut expected = vec![KIND_BOOTSTRAP, 0];
    expected.extend_from_slice(b"hello there");
    assert_eq!(out.ciphertext, Some(expected.clone()));
    assert!(out.handshake.is_some());
    assert_eq!(a.get_state(), State::Handshaking);
    assert_eq!(a.stats_at(0).bytes_sent, 11);
    let again = a.handle_outbound(b"hello there", None);
    assert_eq!(again.ciphertext, Some(expected.clone()));
    assert_eq!(again.handshake, out.handshake);
    let mut b = session(&cb, &ca, false, HandshakeVariant::Legacy);
    let got = b.handle_inbound(cb.store(), &expected, 5, None);
    assert_eq!(got.plaintext, Some(b"hello there".to_vec()));
    assert!(got.fault.is_none());
    assert_eq!(b.phase(), Phase::Init);
    assert_eq!(b.stats_at(5).bytes_received, 11);
    assert_eq!(b.stats_at(5).time_since_last_receive, 5);
}

#[test]
fn bootstrap_frame_names_the_variant() {
    let (ca, cb) = contexts();
    let mut a = session(&ca, &cb, false, HandshakeVariant::Alternate);
    let out = a.handle_outbound(&[], None);
    assert_eq!(out.ciphertext, Some(vec![KIND_BOOTSTRAP, 1]));
    assert!(out.handshake.is_none());
    assert_eq!(a.phase(), Phase::Init);
}

#[test]
fn required_auth_holds_application_bytes_back() {
    let (ca, cb) = contexts();
    let mut a = session(&ca, &cb, true, HandshakeVariant::Legacy);
    let out = a.handle_outbound(b"secret", entropy(1));
    assert!(out.ciphertext.is_none());
    assert!(out.plaintext.is_none());
    let hello = out.handshake.unwrap();
    assert_eq!(hello.len(), HELLO_LEN);
    assert_eq!(hello[0], KIND_HELLO);
    assert!(!hello.windows(6).any(|w| w == b"secret"));
    assert_eq!(a.stats_at(0).bytes_sent, 0);
    assert_eq!(a.stats_at(0).handshake_attempt_count, 1);
}

#[test]
fn required_auth_refuses_bootstrap_frames() {
    let (ca, cb) = contexts();
    let mut b = session(&cb, &ca, true, HandshakeVariant::Legacy);
    let mut frame = vec![KIND_BOOTSTRAP, 0];
    frame.extend_from_slice(b"sneaky");
    let out = b.handle_inbound(cb.store(), &frame, 5, None);
    assert!(nothing(&out));
    assert_eq!(out.fault, Some(ProtocolFault::MalformedHandshake));
    assert_eq!(b.phase(), Phase::Init);
}

#[test]
fn only_the_latest_pending_unit_is_kept() {
    let (ca, cb) = contexts();
    let mut a = session(&ca, &cb, true, HandshakeVariant::Legacy);
    let mut b = session(&cb, &ca, true, HandshakeVariant::Legacy);
    a.set_auth(Some(PASSWORD.to_vec()), Some(LOGIN.to_vec()));
    let hello = a.handle_outbound(b"one", entropy(1)).handshake.unwrap();
    let again = a.handle_outbound(b"two", entropy(3));
    assert_eq!(again.handshake, Some(hello.clone()));
    assert!(a.handle_outbound(b"three", None).ciphertext.is_none());
    assert_eq!(a.stats_at(0).handshake_attempt_count, 1);
    let key = b.handle_inbound(cb.store(), &hello, 1, entropy(2)).handshake.unwrap();
    let frame = a.handle_inbound(ca.store(), &key, 2, None).ciphertext.unwrap();
    assert_eq!(a.stats_at(2).bytes_sent, 5);
    assert_eq!(b.handle_inbound(cb.store(), &frame, 3, None).plaintext, Some(b"three".to_vec()));
    assert!(b.handle_outbound(b"reply", None).ciphertext.is_some());
}

#[test]
fn responder_flushes_its_pending_unit_when_confirmed() {
    let (ca, cb) = contexts();
    let mut a = session(&ca, &cb, true, HandshakeVariant::Legacy);
    let mut b = session(&cb, &ca, true, HandshakeVariant::Legacy);
    a.set_auth(Some(PASSWORD.to_vec()), Some(LOGIN.to_vec()));
    let hello = a.handle_outbound(b"ping", entropy(1)).handshake.unwrap();
    let key = b.handle_inbound(cb.store(), &hello, 1, entropy(2)).handshake.unwrap();
    let held = b.handle_outbound(b"pong", None);
    assert!(held.ciphertext.is_none());
    assert_eq!(held.handshake, Some(key.clone()));
    let frame = a.handle_inbound(ca.store(), &key, 2, None).ciphertext.unwrap();
    let out = b.handle_inbound(cb.store(), &frame, 3, None);
    assert_eq!(out.plaintext, Some(b"ping".to_vec()));
    let reply = out.ciphertext.unwrap();
    assert_eq!(a.handle_inbound(ca.store(), &reply, 4, None).plaintext, Some(b"pong".to_vec()));
}

#[test]
fn unauthenticated_session_emits_nothing_and_times_out() {
    let (ca, cb) = contexts();
    let mut b = session(&cb, &ca, true, HandshakeVariant::Legacy);
    let mut a = session(&ca, &cb, true, HandshakeVariant::Legacy);
    let hello = a.handle_outbound(b"x", entropy(1)).handshake.unwrap();
    let mut emitted = Vec::new();
    let out = b.handle_inbound(cb.store(), &hello, 1, entropy(2));
    assert_eq!(out.fault, Some(ProtocolFault::BadAuthentication));
    emitted.push(out);
    assert_eq!(b.phase(), Phase::Errored);
    assert_eq!(b.get_state(), State::Handshaking);
    a.set_auth(Some(PASSWORD.to_vec()), Some(LOGIN.to_vec()));
    a.reset();
    let good = a.handle_outbound(b"x", entropy(1)).handshake.unwrap();
    emitted.push(b.handle_inbound(cb.store(), &good, 2, entropy(2)));
    emitted.push(b.handle_inbound(cb.store(), &[KIND_DATA, 0, 1, 2, 3], 3, None));
    emitted.push(b.handle_inbound(cb.store(), &[KIND_BOOTSTRAP, 0, 1, 2, 3], 4, None));
    emitted.push(b.handle_outbound(b"held", entropy(5)));
    assert!(emitted.iter().all(nothing));
    assert_eq!(b.phase(), Phase::Errored);
    b.reset_if_timeout_at(RESET_AFTER_INACTIVITY_MS);
    assert_eq!(b.phase(), Phase::Errored);
    b.reset_if_timeout_at(RESET_AFTER_INACTIVITY_MS + 1);
    assert_eq!(b.get_state(), State::Uninitialized);
    assert_eq!(b.stats_at(RESET_AFTER_INACTIVITY_MS + 1).time_since_last_receive, 0);
    let key = b.handle_inbound(cb.store(), &good, RESET_AFTER_INACTIVITY_MS + 2, entropy(2));
    assert!(key.handshake.is_some());
    assert_eq!(b.phase(), Phase::SentKey);
}

#[test]
fn wrong_password_errors_a_session_that_requires_auth() {
    let (ca, cb) = contexts();
    let mut a = session(&ca, &cb, true, HandshakeVariant::Legacy);
    let mut b = session(&cb, &ca, true, HandshakeVariant::Legacy);
    a.set_auth(Some(b"wrong".to_vec()), Some(LOGIN.to_vec()));
    let hello = a.handle_outbound(b"x", entropy(1)).handshake.unwrap();
    let out = b.handle_inbound(cb.store(), &hello, 1, entropy(2));
    assert!(nothing(&out));
    assert_eq!(out.fault, Some(ProtocolFault::BadAuthentication));
    assert_eq!(b.phase(), Phase::Errored);
}

#[test]
fn wrong_password_is_dropped_where_auth_is_not_required() {
    let (ca, cb) = contexts();
    let mut a = session(&ca, &cb, true, HandshakeVariant::Legacy);
    let mut b = session(&cb, &ca, false, HandshakeVariant::Legacy);
    a.set_auth(Some(b"wrong".to_vec()), Some(LOGIN.to_vec()));
    let hello = a.handle_outbound(b"x", entropy(1)).handshake.unwrap();
    let out = b.handle_inbound(cb.store(), &hello, 1, entropy(2));
    assert!(nothing(&out));
    assert_eq!(out.fault, Some(ProtocolFault::BadAuthentication));
    assert_eq!(b.phase(), Phase::Init);
}

#[test]
fn address_restriction_binds_a_credential_to_its_peer() {
    let ca = CryptoAuth::with_private_key([0x11; 32]);
    let mut cb = CryptoAuth::with_private_key([0x22; 32]);
    let address = cryptoauth::keys::derive_address(&ca.get_public_key());
    cb.add_user(PASSWORD.to_vec(), Some(LOGIN.to_vec()), Some([0u8; 16])).unwrap();
    let mut a = session(&ca, &cb, true, HandshakeVariant::Legacy);
    a.set_auth(Some(PASSWORD.to_vec()), Some(LOGIN.to_vec()));
    let hello = a.handle_outbound(b"x", entropy(1)).handshake.unwrap();
    let mut b = session(&cb, &ca, true, HandshakeVariant::Legacy);
    assert_eq!(b.handle_inbound(cb.store(), &hello, 1, entropy(2)).fault, Some(ProtocolFault::BadAuthentication));
    cb.remove_users(None);
    cb.add_user(PASSWORD.to_vec(), Some(LOGIN.to_vec()), Some(address)).unwrap();
    let mut b = session(&cb, &ca, true, HandshakeVariant::Legacy);
    assert!(b.handle_inbound(cb.store(), &hello, 1, entropy(2)).handshake.is_some());
}

#[test]
fn tampered_hello_fails_authentication() {
    let (ca, cb) = contexts();
    let mut a = session(&ca, &cb, true, HandshakeVariant::Legacy);
    a.set_auth(Some(PASSWORD.to_vec()), Some(LOGIN.to_vec()));
    let hello = a.handle_outbound(b"x", entropy(1)).handshake.unwrap();
    for at in [11usize, 23, 40, HELLO_LEN - 1] {
        let mut bad = hello.clone();
        bad[at] ^= 1;
        let mut b = session(&cb, &ca, true, HandshakeVariant::Legacy);
        let out = b.handle_inbound(cb.store(), &bad, 1, entropy(2));
        assert!(nothing(&out));
        assert_eq!(out.fault, Some(ProtocolFault::BadAuthentication));
        assert_eq!(b.phase(), Phase::Errored);
    }
}

#[test]
fn malformed_frames_are_dropped_silently() {
    let (ca, cb) = contexts();
    let mut a = session(&ca, &cb, true, HandshakeVariant::Legacy);
    a.set_auth(Some(PASSWORD.to_vec()), Some(LOGIN.to_vec()));
    let hello = a.handle_outbound(b"x", entropy(1)).handshake.unwrap();
    let mut b = session(&cb, &ca, true, HandshakeVariant::Legacy);
    let mut other_variant = hello.clone();
    other_variant[1] = 1;
    let mut unknown_auth = hello.clone();
    unknown_auth[2] = 3;
    let mut long = hello.clone();
    long.push(0);
    let frames: Vec<Vec<u8>> = vec![
        Vec::new(),
        vec![KIND_HELLO],
        vec![KIND_HELLO, 0],
        hello[..HELLO_LEN - 1].to_vec(),
        long,
        other_variant,
        unknown_auth,
        vec![0, 0, 0, 0],
        vec![9, 0, 0, 0],
        vec![KIND_KEY; KEY_MESSAGE_LEN],
        vec![KIND_DATA, 0],
        {
            let mut key = vec![0u8; KEY_MESSAGE_LEN];
            key[0] = KIND_KEY;
            key
        },
    ];
    for frame in frames {
        let out = b.handle_inbound(cb.store(), &frame, 1, entropy(2));
        assert!(nothing(&out));
        assert_eq!(out.fault, Some(ProtocolFault::MalformedHandshake));
        assert_eq!(b.phase(), Phase::Init);
    }
    assert_eq!(b.stats_at(1).handshake_attempt_count, 0);
}

#[test]
fn replayed_hello_gets_the_same_answer() {
    let (ca, cb) = contexts();
    let mut a = session(&ca, &cb, true, HandshakeVariant::Legacy);
    let mut b = session(&cb, &ca, true, HandshakeVariant::Legacy);
    a.set_auth(Some(PASSWORD.to_vec()), Some(LOGIN.to_vec()));
    let hello = a.handle_outbound(b"x", entropy(1)).handshake.unwrap();
    let first = b.handle_inbound(cb.store(), &hello, 1, entropy(2));
    let key = first.handshake.unwrap();
    assert_eq!(key.len(), KEY_MESSAGE_LEN);
    assert_eq!(key[0], KIND_KEY);
    let second = b.handle_inbound(cb.store(), &hello, 2, entropy(3));
    assert_eq!(second.handshake, Some(key.clone()));
    assert_eq!(second.fault, Some(ProtocolFault::ReplayedHandshake));
    assert_eq!(b.phase(), Phase::SentKey);
    assert_eq!(b.stats_at(2).handshake_attempt_count, 1);
    assert_eq!(b.stats_at(2).time_since_last_receive, 1);
    let frame = a.handle_inbound(ca.store(), &key, 3, None).ciphertext.unwrap();
    assert_eq!(b.handle_inbound(cb.store(), &frame, 4, None).plaintext, Some(b"x".to_vec()));
}

#[test]
fn a_new_hello_replaces_the_answered_one() {
    let (ca, cb) = contexts();
    let mut a = session(&ca, &cb, true, HandshakeVariant::Legacy);
    let mut b = session(&cb, &ca, true, HandshakeVariant::Legacy);
    a.set_auth(Some(PASSWORD.to_vec()), Some(LOGIN.to_vec()));
    let old_hello = a.handle_outbound(b"x", entropy(1)).handshake.unwrap();
    let old_key = b.handle_inbound(cb.store(), &old_hello, 1, entropy(2)).handshake.unwrap();
    a.reset();
    let hello = a.handle_outbound(b"y", entropy(4)).handshake.unwrap();
    assert_ne!(hello, old_hello);
    let answered = b.handle_inbound(cb.store(), &hello, 2, entropy(5));
    let key = answered.handshake.unwrap();
    assert!(answered.fault.is_none());
    assert_ne!(key, old_key);
    assert_eq!(b.stats_at(2).handshake_attempt_count, 2);
    let stale = a.handle_inbound(ca.store(), &old_key, 3, None);
    assert_eq!(stale.fault, Some(ProtocolFault::BadAuthentication));
    assert_eq!(a.phase(), Phase::Errored);
}

#[test]
fn established_session_survives_bad_frames() {
    let (ca, cb) = contexts();
    let mut a = session(&ca, &cb, true, HandshakeVariant::Legacy);
    let mut b = session(&cb, &ca, true, HandshakeVariant::Legacy);
    establish(&ca, &cb, &mut a, &mut b, b"first");
    let good = a.handle_outbound(b"payload", None).ciphertext.unwrap();
    let mut tampered = good.clone();
    let last = tampered.len() - 1;
    tampered[last] ^= 0x80;
    let mut wrong_counter = good.clone();
    wrong_counter[2] ^= 1;
    let before = b.stats_at(100);
    for frame in [tampered, wrong_counter, good[..12].to_vec(), vec![KIND_HELLO, 0, 0], vec![KIND_BOOTSTRAP, 0, 1]] {
        let out = b.handle_inbound(cb.store(), &frame, 90, entropy(9));
        assert!(nothing(&out));
        assert_eq!(out.fault, Some(ProtocolFault::BadAuthentication));
        assert_eq!(b.phase(), Phase::Established);
    }
    assert_eq!(b.stats_at(100), before);
    assert_eq!(b.handle_inbound(cb.store(), &good, 95, None).plaintext, Some(b"payload".to_vec()));
}

#[test]
fn no_number_of_bad_frames_resets_an_established_session() {
    let (ca, cb) = contexts();
    let mut a = session(&ca, &cb, true, HandshakeVariant::Legacy);
    let mut b = session(&cb, &ca, true, HandshakeVariant::Legacy);
    establish(&ca, &cb, &mut a, &mut b, b"first");
    let mut bad = vec![KIND_DATA, 0];
    bad.extend_from_slice(&[0u8; 40]);
    for i in 0..2000u64 {
        bad[2] = (i % 251) as u8;
        bad[3] = (i / 251) as u8;
        let out = b.handle_inbound(cb.store(), &bad, 31 + i, None);
        assert!(nothing(&out));
    }
    assert_eq!(b.phase(), Phase::Established);
    assert_eq!(b.stats_at(30).time_since_last_receive, 0);
    let frame = a.handle_outbound(b"still here", None).ciphertext.unwrap();
    assert_eq!(b.handle_inbound(cb.store(), &frame, 5000, None).plaintext, Some(b"still here".to_vec()));
}

#[test]
fn sealing_bound_lies_below_the_end_of_the_keystream() {
    assert_eq!(MAX_SEALED_LEN, 0xFFFF_FFFF);
    assert!((MAX_SEALED_LEN as u64) <= 64 * 0xFFFF_FFFE);
}

#[test]
fn replayed_data_frame_is_dropped() {
    let (ca, cb) = contexts();
    let mut a = session(&ca, &cb, true, HandshakeVariant::Alternate);
    let mut b = session(&cb, &ca, true, HandshakeVariant::Alternate);
    establish(&ca, &cb, &mut a, &mut b, b"first");
    let one = a.handle_outbound(b"one", None).ciphertext.unwrap();
    let two = a.handle_outbound(b"two", None).ciphertext.unwrap();
    assert_eq!(b.handle_inbound(cb.store(), &two, 40, None).plaintext, Some(b"two".to_vec()));
    let late = b.handle_inbound(cb.store(), &one, 41, None);
    assert!(nothing(&late));
    assert_eq!(late.fault, Some(ProtocolFault::BadAuthentication));
    let again = b.handle_inbound(cb.store(), &two, 42, None);
    assert!(nothing(&again));
    assert_eq!(b.stats_at(42).time_since_last_receive, 2);
}

#[test]
fn data_frames_of_one_direction_do_not_open_in_the_other() {
    let (ca, cb) = contexts();
    let mut a = session(&ca, &cb, true, HandshakeVariant::Legacy);
    let mut b = session(&cb, &ca, true, HandshakeVariant::Legacy);
    establish(&ca, &cb, &mut a, &mut b, b"first");
    let frame = a.handle_outbound(b"loop", None).ciphertext.unwrap();
    let out = a.handle_inbound(ca.store(), &frame, 40, None);
    assert!(nothing(&out));
    assert_eq!(out.fault, Some(ProtocolFault::BadAuthentication));
}

#[test]
fn variants_do_not_interoperate() {
    let (ca, cb) = contexts();
    let mut a = session(&ca, &cb, true, HandshakeVariant::Legacy);
    let mut b = session(&cb, &ca, true, HandshakeVariant::Alternate);
    a.set_auth(Some(PASSWORD.to_vec()), Some(LOGIN.to_vec()));
    let mut hello = a.handle_outbound(b"x", entropy(1)).handshake.unwrap();
    assert_eq!(b.handle_inbound(cb.store(), &hello, 1, entropy(2)).fault, Some(ProtocolFault::MalformedHandshake));
    hello[1] = 1;
    assert_eq!(b.handle_inbound(cb.store(), &hello, 1, entropy(2)).fault, Some(ProtocolFault::BadAuthentication));
}

#[test]
fn bytes_received_grows_until_reset() {
    let (ca, cb) = contexts();
    let mut a = session(&ca, &cb, true, HandshakeVariant::Legacy);
    let mut b = session(&cb, &ca, true, HandshakeVariant::Legacy);
    establish(&ca, &cb, &mut a, &mut b, b"first");
    let mut last = b.stats_at(30).bytes_received;
    assert_eq!(last, 5);
    for (i, size) in [0usize, 1, 100, 7].iter().enumerate() {
        let frame = a.handle_outbound(&vec![0xab; *size], None).ciphertext.unwrap();
        b.handle_inbound(cb.store(), &frame, 40 + i as u64, None);
        b.handle_inbound(cb.store(), &frame, 40 + i as u64, None);
        b.handle_inbound(cb.store(), &[KIND_DATA, 0, 9, 9], 40, None);
        let now = b.stats_at(50).bytes_received;
        assert_eq!(now, last + *size as u64);
        last = now;
    }
    assert_eq!(a.stats_at(50).bytes_sent, 5 + 108);
    b.reset();
    assert_eq!(b.stats_at(50).bytes_received, 0);
    assert_eq!(b.stats_at(50).bytes_sent, 0);
}

#[test]
fn reset_is_idempotent() {
    let (ca, cb) = contexts();
    let mut a = session(&ca, &cb, true, HandshakeVariant::Legacy);
    let mut b = session(&cb, &ca, true, HandshakeVariant::Legacy);
    establish(&ca, &cb, &mut a, &mut b, b"first");
    a.handle_outbound(b"more", None);
    a.reset();
    let once = a.stats_at(1000);
    assert_eq!(a.get_state(), State::Uninitialized);
    assert_eq!((once.bytes_sent, once.bytes_received, once.handshake_attempt_count), (0, 0, 0));
    a.reset();
    assert_eq!(a.get_state(), State::Uninitialized);
    assert_eq!(a.stats_at(1000), once);
    let stale = b.handle_outbound(b"late", None).ciphertext.unwrap();
    let out = a.handle_inbound(ca.store(), &stale, 1001, None);
    assert!(nothing(&out));
    assert_eq!(out.fault, Some(ProtocolFault::MalformedHandshake));
}

#[test]
fn reset_drops_the_pending_unit_and_keeps_the_credential() {
    let (ca, cb) = contexts();
    let mut a = session(&ca, &cb, true, HandshakeVariant::Legacy);
    let mut b = session(&cb, &ca, true, HandshakeVariant::Legacy);
    a.set_auth(Some(PASSWORD.to_vec()), Some(LOGIN.to_vec()));
    a.handle_outbound(b"stale", entropy(1));
    a.reset();
    let hello = a.handle_outbound(b"fresh", entropy(3)).handshake.unwrap();
    assert_eq!(hello[2], 2);
    let key = b.handle_inbound(cb.store(), &hello, 1, entropy(2)).handshake.unwrap();
    let frame = a.handle_inbound(ca.store(), &key, 2, None).ciphertext.unwrap();
    assert_eq!(b.handle_inbound(cb.store(), &frame, 3, None).plaintext, Some(b"fresh".to_vec()));
}

#[test]
fn timeout_resets_only_past_the_threshold() {
    let (ca, cb) = contexts();
    let mut a = session(&ca, &cb, true, HandshakeVariant::Legacy);
    let mut b = session(&cb, &ca, true, HandshakeVariant::Legacy);
    establish(&ca, &cb, &mut a, &mut b, b"first");
    b.reset_if_timeout_at(30 + RESET_AFTER_INACTIVITY_MS);
    assert_eq!(b.get_state(), State::Established);
    b.reset_if_timeout_at(5);
    assert_eq!(b.get_state(), State::Established);
    b.reset_if_timeout_at(31 + RESET_AFTER_INACTIVITY_MS);
    assert_eq!(b.get_state(), State::Uninitialized);
    assert_eq!(b.stats_at(31 + RESET_AFTER_INACTIVITY_MS).bytes_received, 0);
    assert_eq!(b.stats_at(40 + RESET_AFTER_INACTIVITY_MS).time_since_last_receive, 9);
    b.reset_if_timeout_at(31 + RESET_AFTER_INACTIVITY_MS);
    assert_eq!(b.get_state(), State::Uninitialized);
}

#[test]
fn set_auth_has_no_effect_once_established() {
    let (ca, cb) = contexts();
    let mut a = session(&ca, &cb, true, HandshakeVariant::Legacy);
    let mut b = session(&cb, &ca, true, HandshakeVariant::Legacy);
    establish(&ca, &cb, &mut a, &mut b, b"first");
    a.set_auth(None, None);
    a.reset();
    b.reset();
    let hello = a.handle_outbound(b"x", entropy(6)).handshake.unwrap();
    assert_eq!(hello[2], 2);
    assert!(b.handle_inbound(cb.store(), &hello, 1, entropy(7)).handshake.is_some());
}

#[test]
fn set_auth_overwrites_before_the_handshake() {
    let (ca, cb) = contexts();
    let mut a = session(&ca, &cb, true, HandshakeVariant::Legacy);
    a.set_auth(Some(b"wrong".to_vec()), None);
    a.set_auth(Some(PASSWORD.to_vec()), Some(LOGIN.to_vec()));
    let hello = a.handle_outbound(b"x", entropy(1)).handshake.unwrap();
    let mut b = session(&cb, &ca, true, HandshakeVariant::Legacy);
    assert!(b.handle_inbound(cb.store(), &hello, 1, entropy(2)).handshake.is_some());
    let mut c = session(&ca, &cb, true, HandshakeVariant::Legacy);
    c.set_auth(Some(PASSWORD.to_vec()), Some(LOGIN.to_vec()));
    c.set_auth(None, Some(LOGIN.to_vec()));
    assert_eq!(c.handle_outbound(b"x", entropy(1)).handshake.unwrap()[2], 0);
}

#[test]
fn simultaneous_hellos_are_settled_by_the_keys() {
    let (ca, cb) = contexts();
    let mut a = session(&ca, &cb, false, HandshakeVariant::Legacy);
    let mut b = session(&cb, &ca, false, HandshakeVariant::Legacy);
    let hello_a = a.handle_outbound(b"a", entropy(1)).handshake.unwrap();
    let hello_b = b.handle_outbound(b"b", entropy(2)).handshake.unwrap();
    let at_a = a.handle_inbound(ca.store(), &hello_b, 1, entropy(3));
    let at_b = b.handle_inbound(cb.store(), &hello_a, 1, entropy(4));
    let a_is_lower = ca.get_public_key() < cb.get_public_key();
    let (winner, loser, key, cw, cl) = if a_is_lower {
        assert!(nothing(&at_a) && at_a.fault.is_none());
        (&mut a, &mut b, at_b.handshake.unwrap(), &ca, &cb)
    } else {
        assert!(nothing(&at_b) && at_b.fault.is_none());
        (&mut b, &mut a, at_a.handshake.unwrap(), &cb, &ca)
    };
    assert_eq!(winner.phase(), Phase::SentHello);
    assert_eq!(loser.phase(), Phase::SentKey);
    winner.handle_inbound(cw.store(), &key, 2, None);
    assert_eq!(winner.phase(), Phase::Established);
    let frame = winner.handle_outbound(b"done", None).ciphertext.unwrap();
    assert_eq!(loser.handle_inbound(cl.store(), &frame, 3, None).plaintext, Some(b"done".to_vec()));
}

#[test]
fn no_hello_without_entropy() {
    let (ca, cb) = contexts();
    let mut a = session(&ca, &cb, true, HandshakeVariant::Legacy);
    for bad in [None, Some(Vec::new()), Some(vec![1u8; 43]), Some(vec![1u8; 45])] {
        let out = a.handle_outbound(b"x", bad);
        assert!(nothing(&out));
        assert_eq!(a.phase(), Phase::Init);
    }
    assert!(a.handle_outbound(b"x", entropy(1)).handshake.is_some());
}

#[test]
fn no_answer_without_entropy() {
    let (ca, cb) = contexts();
    let mut a = session(&ca, &cb, true, HandshakeVariant::Legacy);
    let mut b = session(&cb, &ca, true, HandshakeVariant::Legacy);
    a.set_auth(Some(PASSWORD.to_vec()), Some(LOGIN.to_vec()));
    let hello = a.handle_outbound(b"x", entropy(1)).handshake.unwrap();
    for bad in [None, Some(vec![1u8; 43])] {
        let out = b.handle_inbound(cb.store(), &hello, 1, bad);
        assert!(nothing(&out) && out.fault.is_none());
        assert_eq!(b.phase(), Phase::Init);
    }
    assert!(b.handle_inbound(cb.store(), &hello, 1, entropy(2)).handshake.is_some());
}

#[test]
fn hello_depends_on_the_entropy() {
    let (ca, cb) = contexts();
    let mut a = session(&ca, &cb, true, HandshakeVariant::Legacy);
    let mut c = session(&ca, &cb, true, HandshakeVariant::Legacy);
    let mut d = session(&ca, &cb, true, HandshakeVariant::Legacy);
    let one = a.handle_outbound(b"x", entropy(1)).handshake.unwrap();
    let two = c.handle_outbound(b"x", entropy(2)).handshake.unwrap();
    let same = d.handle_outbound(b"y", entropy(1)).handshake.unwrap();
    assert_ne!(one, two);
    assert_eq!(one, same);
    assert_eq!(&one[11..23], &entropy(1).unwrap()[32..44]);
}

#[test]
fn key_message_out_of_place_is_dropped() {
    let (ca, cb) = contexts();
    let mut a = session(&ca, &cb, true, HandshakeVariant::Legacy);
    let mut b = session(&cb, &ca, true, HandshakeVariant::Legacy);
    a.set_auth(Some(PASSWORD.to_vec()), Some(LOGIN.to_vec()));
    let hello = a.handle_outbound(b"x", entropy(1)).handshake.unwrap();
    let key = b.handle_inbound(cb.store(), &hello, 1, entropy(2)).handshake.unwrap();
    let out = b.handle_inbound(cb.store(), &key, 2, None);
    assert!(nothing(&out));
    assert_eq!(out.fault, Some(ProtocolFault::MalformedHandshake));
    assert_eq!(b.phase(), Phase::SentKey);
    let mut bad = key.clone();
    bad[20] ^= 1;
    let out = a.handle_inbound(ca.store(), &bad, 3, None);
    assert_eq!(out.fault, Some(ProtocolFault::BadAuthentication));
    assert_eq!(a.phase(), Phase::Errored);
}
