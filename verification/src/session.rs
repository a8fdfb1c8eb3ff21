//! The session: one peer's handshake state machine and the keys it negotiates.
//!
//! A session never fails a call on account of what a peer sent. Each step
//! returns what the session emits, and the caller, who owns the transport,
//! hands the bytes on.
use vstd::prelude::*;
use vstd::bytes::u64_from_le_bytes;
use vstd::slice::{slice_subrange, slice_to_vec};
use crate::agreement::{carried_payload_is_delivered, delivers};
use crate::bytes::{append, array_at, bytes_equal, bytes_less};
use crate::context::CryptoAuth;
use crate::credentials::{CredentialStore, AUTH_LOGIN, AUTH_NONE};
use crate::endpoint::{PipelineEndpoint, Side};
use crate::handshake::{
    auth_secret, build_hello, build_key_message, credentials_view, derive_key, Credentials,
    LABEL_HELLO, LABEL_INITIATOR_SENDS, LABEL_KEY, LABEL_RESPONDER_SENDS,
};
use crate::keys::{check_peer_key, derive_address, valid_peer_key, KeyPair};
use crate::model::{
    saturating_sum, zero_key, EmittedView, Phase, ProtocolFault, SessionView, State, Stats,
    RESET_AFTER_INACTIVITY_MS,
};
use crate::primitives::{aead_open, aead_seal, x25519, MAX_SEALED_LEN};
use crate::sources::Clock;
use crate::wire::{
    build_bootstrap_frame, build_data_header, build_data_nonce, HandshakeVariant, DATA_HEADER_LEN,
    ENTROPY_LEN, FRAME_HEADER_LEN, HELLO_LEN, KEY_MESSAGE_LEN, KIND_BOOTSTRAP, KIND_DATA, KIND_HELLO,
    KIND_KEY,
};

verus! {

/// Why a session could not be made.
#[derive(Debug, Clone, Copy, PartialEq, Eq, Structural)]
pub enum SessionError {
    /// The peer's key has the wrong length or is a low-order point.
    InvalidPeerKey,
}

/// What one step made the session emit.
pub struct Emitted {
    /// Bytes that leave the plaintext endpoint, towards the application.
    pub plaintext: Option<Vec<u8>>,
    /// A handshake message that leaves the ciphertext endpoint.
    pub handshake: Option<Vec<u8>>,
    /// A data or bootstrap frame that leaves the ciphertext endpoint, after
    /// the handshake message if there is one.
    pub ciphertext: Option<Vec<u8>>,
    /// Why the inbound frame was not accepted, if it was not.
    pub fault: Option<ProtocolFault>,
}

/// The view of optional bytes.
pub open spec fn bytes_view(bytes: Option<Vec<u8>>) -> Option<Seq<u8>> {
    match bytes {
        Some(b) => Some(b@),
        None => None,
    }
}

/// The view of an optional key.
pub open spec fn key_view(key: Option<[u8; 32]>) -> Option<Seq<u8>> {
    match key {
        Some(k) => Some(k@),
        None => None,
    }
}

/// The view of an optional name.
pub open spec fn name_view(name: Option<String>) -> Option<Seq<char>> {
    match name {
        Some(n) => Some(n@),
        None => None,
    }
}

impl View for Emitted {
    type V = EmittedView;

    open spec fn view(&self) -> EmittedView {
        EmittedView {
            plaintext: bytes_view(self.plaintext),
            handshake: bytes_view(self.handshake),
            ciphertext: bytes_view(self.ciphertext),
            fault: self.fault,
        }
    }
}

impl Emitted {
    /// Nothing emitted, and `fault` reported.
    pub fn silent(fault: Option<ProtocolFault>) -> (out: Emitted)
        ensures
            out@ == crate::model::silence(fault),
    {
        Emitted { plaintext: None, handshake: None, ciphertext: None, fault }
    }
}

/// `a + n`, or the greatest value where that does not fit.
pub fn add_saturating(a: u64, n: usize) -> (sum: u64)
    ensures
        sum == saturating_sum(a, n as nat),
{
    let n64: u64 = n as u64;
    if n64 > u64::MAX - a {
        u64::MAX
    } else {
        a + n64
    }
}

/// A copy of optional bytes.
pub fn copy_bytes(bytes: &Option<Vec<u8>>) -> (copy: Option<Vec<u8>>)
    ensures
        bytes_view(copy) == bytes_view(*bytes),
{
    match bytes {
        Some(b) => Some(b.clone()),
        None => None,
    }
}

/// One peer's handshake state machine and negotiated keys.
pub struct Session {
    our_private: [u8; 32],
    our_public: [u8; 32],
    her_public: [u8; 32],
    her_address: [u8; 16],
    require_auth: bool,
    name: Option<String>,
    variant: HandshakeVariant,
    auth: Option<Credentials>,
    phase: Phase,
    temp_private: Option<[u8; 32]>,
    sent_handshake: Option<Vec<u8>>,
    answered_hello: Option<Vec<u8>>,
    send_key: [u8; 32],
    recv_key: [u8; 32],
    send_counter: u64,
    recv_floor: u64,
    pending: Option<Vec<u8>>,
    last_activity: u64,
    bytes_sent: u64,
    bytes_received: u64,
    handshake_attempts: u64,
}

impl View for Session {
    type V = SessionView;

    closed spec fn view(&self) -> SessionView {
        SessionView {
            our_private: self.our_private@,
            our_public: self.our_public@,
            her_public: self.her_public@,
            her_address: self.her_address@,
            require_auth: self.require_auth,
            name: name_view(self.name),
            variant: self.variant,
            auth: credentials_view(self.auth),
            phase: self.phase,
            temp_private: key_view(self.temp_private),
            sent_handshake: bytes_view(self.sent_handshake),
            answered_hello: bytes_view(self.answered_hello),
            send_key: self.send_key@,
            recv_key: self.recv_key@,
            send_counter: self.send_counter,
            recv_floor: self.recv_floor,
            pending: bytes_view(self.pending),
            last_activity: self.last_activity,
            bytes_sent: self.bytes_sent,
            bytes_received: self.bytes_received,
            handshake_attempts: self.handshake_attempts,
        }
    }
}

impl Session {
    #[verifier::type_invariant]
    spec fn well_formed(self) -> bool {
        self@.wf()
    }

    /// Makes the session of the holder of `keys` with the peer that holds
    /// `her_public_key`, at time `now`. The key is refused where it has not
    /// the length of a key or shares no secret with ours; nothing else is.
    pub fn new_at(
        keys: &KeyPair,
        her_public_key: &[u8],
        require_auth: bool,
        name: Option<String>,
        variant: HandshakeVariant,
        now: u64,
    ) -> (made: Result<Session, SessionError>)
        ensures
            valid_peer_key(keys.private_bytes(), her_public_key@) ==> (made matches Ok(session)
                && session@ == SessionView::initial(
                keys.private_bytes(),
                her_public_key@,
                require_auth,
                name_view(name),
                variant,
                now,
            ) && session@.wf()),
            !valid_peer_key(keys.private_bytes(), her_public_key@) ==> (made matches Err(e)
                && e == SessionError::InvalidPeerKey),
    {
        let our_private = keys.private_key();
        if !check_peer_key(&our_private, her_public_key) {
            return Err(SessionError::InvalidPeerKey);
        }
        let her_public = array_at::<32>(her_public_key, 0);
        assert(her_public@ =~= her_public_key@);
        let zero = [0u8; 32];
        assert(zero@ =~= zero_key());
        Ok(
            Session {
                our_private,
                our_public: keys.public_key(),
                her_public,
                her_address: derive_address(&her_public),
                require_auth,
                name,
                variant,
                auth: None,
                phase: Phase::Init,
                temp_private: None,
                sent_handshake: None,
                answered_hello: None,
                send_key: zero,
                recv_key: zero,
                send_counter: 0,
                recv_floor: 0,
                pending: None,
                last_activity: now,
                bytes_sent: 0,
                bytes_received: 0,
                handshake_attempts: 0,
            },
        )
    }

    /// Makes a session of the node `context` with the peer that holds
    /// `her_public_key`, and the two endpoints of its pipeline. The key is
    /// refused where it has not the length of a key or shares no secret with
    /// ours; the session starts its inactivity count at what the clock shows.
    pub fn new<C: Clock>(
        context: &CryptoAuth,
        her_public_key: &[u8],
        require_auth: bool,
        name: Option<String>,
        variant: HandshakeVariant,
        clock: &C,
    ) -> (made: Result<(Session, PipelineEndpoint, PipelineEndpoint), SessionError>)
        ensures
            valid_peer_key(context.private_bytes(), her_public_key@) ==> (made matches Ok(parts)
                && parts.1.side == Side::Plaintext && parts.2.side == Side::Ciphertext
                && parts.0@.wf() && exists|now: u64|
                parts.0@ == #[trigger] SessionView::initial(
                    context.private_bytes(),
                    her_public_key@,
                    require_auth,
                    name_view(name),
                    variant,
                    now,
                )),
            !valid_peer_key(context.private_bytes(), her_public_key@) ==> (made matches Err(e)
                && e == SessionError::InvalidPeerKey),
    {
        let now = clock.now_millis();
        match Session::new_at(context.keys(), her_public_key, require_auth, name, variant, now) {
            Ok(session) => {
                assert(session@ == SessionView::initial(
                    context.private_bytes(),
                    her_public_key@,
                    require_auth,
                    name_view(name),
                    variant,
                    now,
                ));
                Ok((session, PipelineEndpoint::new(Side::Plaintext), PipelineEndpoint::new(Side::Ciphertext)))
            },
            Err(e) => Err(e),
        }
    }

    /// Where the session stands in its handshake.
    pub fn phase(&self) -> (phase: Phase)
        ensures
            phase == self@.phase,
    {
        self.phase
    }

    /// Where the session stands, as others see it.
    pub fn get_state(&self) -> (state: State)
        ensures
            state == self@.state(),
    {
        match self.phase {
            Phase::Init => State::Uninitialized,
            Phase::Established => State::Established,
            _ => State::Handshaking,
        }
    }

    /// The peer's public key.
    pub fn get_her_public_key(&self) -> (key: [u8; 32])
        ensures
            key@ == self@.her_public,
    {
        self.her_public
    }

    /// The peer's address. It is derived from the peer's public key and from
    /// nothing else.
    pub fn get_her_address(&self) -> (address: [u8; 16])
        ensures
            address@ == self@.her_address,
            address@ == crate::keys::address_of(self@.her_public),
    {
        proof {
            use_type_invariant(self);
        }
        self.her_address
    }

    /// The label the session was given, if any.
    pub fn get_name(&self) -> (name: Option<String>)
        ensures
            name_view(name) == self@.name,
    {
        match &self.name {
            Some(n) => Some(n.clone()),
            None => None,
        }
    }

    /// Whether the session requires its peer to authenticate.
    pub fn requires_auth(&self) -> (required: bool)
        ensures
            required == self@.require_auth,
    {
        self.require_auth
    }

    /// The handshake the session speaks.
    pub fn variant(&self) -> (variant: HandshakeVariant)
        ensures
            variant == self@.variant,
    {
        self.variant
    }

    /// The counters at time `now`.
    pub fn stats_at(&self, now: u64) -> (stats: Stats)
        ensures
            stats == self@.stats(now),
    {
        Stats {
            bytes_sent: self.bytes_sent,
            bytes_received: self.bytes_received,
            time_since_last_receive: if now >= self.last_activity {
                now - self.last_activity
            } else {
                0
            },
            state: self.get_state(),
            handshake_attempt_count: self.handshake_attempts,
        }
    }

    /// The counters at the time the clock shows.
    pub fn stats<C: Clock>(&self, clock: &C) -> (stats: Stats)
        ensures
            exists|now: u64| stats == #[trigger] self@.stats(now),
    {
        let now = clock.now_millis();
        let stats = self.stats_at(now);
        assert(stats == self@.stats(now));
        stats
    }

    /// Sets the credential the session presents when it opens a handshake.
    /// Without a password it presents none. An established session keeps
    /// what it has.
    pub fn set_auth(&mut self, password: Option<Vec<u8>>, login: Option<Vec<u8>>)
        ensures
            final(self)@ == old(self)@.after_set_auth(
                match password {
                    Some(p) => Some((Credentials { password: p, login })@),
                    None => None,
                },
            ),
    {
        proof {
            use_type_invariant(&*self);
        }
        if self.phase == Phase::Established {
            return ;
        }
        self.auth = match password {
            Some(p) => Some(Credentials { password: p, login }),
            None => None,
        };
    }

    fn clear_keys(&mut self, phase: Phase)
        ensures
            final(self)@ == old(self)@.without_keys(phase),
    {
        proof {
            use_type_invariant(&*self);
        }
        let zero = [0u8; 32];
        assert(zero@ =~= zero_key());
        self.phase = phase;
        self.temp_private = None;
        self.sent_handshake = None;
        self.answered_hello = None;
        self.send_key = zero;
        self.recv_key = zero;
        self.send_counter = 0;
        self.recv_floor = 0;
    }

    /// Returns the session to `Init`: what was negotiated, what was held back
    /// and the counters are discarded.
    pub fn reset(&mut self)
        ensures
            final(self)@ == old(self)@.after_reset(),
    {
        proof {
            use_type_invariant(&*self);
        }
        self.clear_keys(Phase::Init);
        self.pending = None;
        self.bytes_sent = 0;
        self.bytes_received = 0;
        self.handshake_attempts = 0;
    }

    /// Resets the session if, at time `now`, it has validated no inbound
    /// frame for longer than the inactivity threshold; the time of the reset
    /// then counts as its last activity.
    pub fn reset_if_timeout_at(&mut self, now: u64)
        ensures
            final(self)@ == old(self)@.after_timeout_poll(now),
    {
        proof {
            use_type_invariant(&*self);
        }
        if now >= self.last_activity && now - self.last_activity > RESET_AFTER_INACTIVITY_MS {
            self.reset();
            self.last_activity = now;
        }
    }

    /// Polls the session for a timeout at the time the clock shows.
    pub fn reset_if_timeout<C: Clock>(&mut self, clock: &C)
        ensures
            exists|now: u64| final(self)@ == #[trigger] old(self)@.after_timeout_poll(now),
    {
        let now = clock.now_millis();
        self.reset_if_timeout_at(now);
        assert(self@ == old(self)@.after_timeout_poll(now));
    }

    fn reject(&mut self) -> (out: Emitted)
        ensures
            (final(self)@, out@) == old(self)@.rejected(),
    {
        proof {
            use_type_invariant(&*self);
        }
        if self.require_auth && self.phase != Phase::Established {
            self.clear_keys(Phase::Errored);
        }
        Emitted::silent(Some(ProtocolFault::BadAuthentication))
    }

    fn seal_data(&mut self, payload: &[u8]) -> (frame: Option<Vec<u8>>)
        ensures
            match old(self)@.sealed_data(payload@) {
                Some((next, bytes)) => bytes_view(frame) == Some(bytes) && final(self)@ == next,
                None => frame is None && final(self)@ == old(self)@,
            },
            old(self)@.send_counter < u64::MAX && payload@.len() <= MAX_SEALED_LEN ==> frame is Some,
            frame matches Some(bytes) ==> delivers(old(self)@, bytes@, payload@),
    {
        proof {
            use_type_invariant(&*self);
        }
        if self.send_counter == u64::MAX || payload.len() > MAX_SEALED_LEN {
            return None;
        }
        let mut frame = build_data_header(self.variant, self.send_counter);
        let ghost header = frame@;
        let nonce = build_data_nonce(slice_subrange(frame.as_slice(), 2, 10));
        match aead_seal(&self.send_key, &nonce, frame.as_slice(), payload) {
            Some(boxed) => {
                append(&mut frame, boxed.as_slice());
                proof {
                    assert(frame@.subrange(0, 10) =~= header);
                    assert(frame@.subrange(2, 10) =~= header.subrange(2, 10));
                    assert(frame@.subrange(10, frame@.len() as int) =~= boxed@);
                    carried_payload_is_delivered(self@, frame@, payload@);
                }
                self.send_counter = self.send_counter + 1;
                self.bytes_sent = add_saturating(self.bytes_sent, payload.len());
                Some(frame)
            },
            None => None,
        }
    }

    fn flush(&mut self) -> (frame: Option<Vec<u8>>)
        ensures
            (final(self)@, bytes_view(frame)) == old(self)@.flushed(),
    {
        proof {
            use_type_invariant(&*self);
        }
        let mut held: Option<Vec<u8>> = None;
        core::mem::swap(&mut self.pending, &mut held);
        match held {
            None => None,
            Some(unit) => self.seal_data(unit.as_slice()),
        }
    }

    fn inbound_data(&mut self, frame: &[u8], now: u64) -> (out: Emitted)
        ensures
            (final(self)@, out@) == old(self)@.inbound_data(frame@, now),
    {
        proof {
            use_type_invariant(&*self);
        }
        if self.phase != Phase::SentKey && self.phase != Phase::Established {
            return Emitted::silent(Some(ProtocolFault::MalformedHandshake));
        }
        if frame.len() < DATA_HEADER_LEN {
            return Emitted::silent(Some(ProtocolFault::MalformedHandshake));
        }
        let boxed_len: usize = frame.len() - DATA_HEADER_LEN;
        if boxed_len > 16 && boxed_len - 16 > MAX_SEALED_LEN {
            return Emitted::silent(Some(ProtocolFault::MalformedHandshake));
        }
        let counter_bytes = slice_subrange(frame, 2, 10);
        let counter = u64_from_le_bytes(counter_bytes);
        if counter < self.recv_floor || counter == u64::MAX {
            return self.reject();
        }
        let nonce = build_data_nonce(counter_bytes);
        let opened = aead_open(
            &self.recv_key,
            &nonce,
            slice_subrange(frame, 0, 10),
            slice_subrange(frame, 10, frame.len()),
        );
        match opened {
            None => self.reject(),
            Some(payload) => {
                let was_waiting = self.phase == Phase::SentKey;
                self.phase = Phase::Established;
                self.sent_handshake = None;
                self.answered_hello = None;
                self.recv_floor = counter + 1;
                self.last_activity = now;
                self.bytes_received = add_saturating(self.bytes_received, payload.len());
                let frame_out = if was_waiting {
                    self.flush()
                } else {
                    None
                };
                Emitted { plaintext: Some(payload), handshake: None, ciphertext: frame_out, fault: None }
            },
        }
    }

    fn inbound_key(&mut self, frame: &[u8], now: u64) -> (out: Emitted)
        ensures
            (final(self)@, out@) == old(self)@.inbound_key(frame@, now),
    {
        proof {
            use_type_invariant(&*self);
        }
        if self.phase != Phase::SentHello || frame.len() != KEY_MESSAGE_LEN {
            return Emitted::silent(Some(ProtocolFault::MalformedHandshake));
        }
        let temp = match self.temp_private {
            Some(temp) => temp,
            None => {
                return Emitted::silent(Some(ProtocolFault::MalformedHandshake));
            },
        };
        let secret = auth_secret(&self.auth);
        let shared_static = x25519(&temp, &self.her_public);
        let key = derive_key(
            LABEL_KEY,
            self.variant,
            &self.our_public,
            &self.her_public,
            &shared_static,
            secret.as_slice(),
        );
        let nonce = array_at::<12>(frame, 2);
        let opened = aead_open(&key, &nonce, slice_subrange(frame, 0, 14), slice_subrange(frame, 14, frame.len()));
        match opened {
            None => self.reject(),
            Some(carried) => {
                if carried.len() != 32 {
                    return Emitted::silent(Some(ProtocolFault::MalformedHandshake));
                }
                let her_temp = array_at::<32>(carried.as_slice(), 0);
                assert(her_temp@ =~= carried@);
                let shared = x25519(&temp, &her_temp);
                let empty: Vec<u8> = Vec::new();
                let send_key = derive_key(
                    LABEL_INITIATOR_SENDS,
                    self.variant,
                    &self.our_public,
                    &self.her_public,
                    &shared,
                    empty.as_slice(),
                );
                let recv_key = derive_key(
                    LABEL_RESPONDER_SENDS,
                    self.variant,
                    &self.our_public,
                    &self.her_public,
                    &shared,
                    empty.as_slice(),
                );
                assert(empty@ =~= Seq::<u8>::empty());
                self.phase = Phase::Established;
                self.temp_private = None;
                self.sent_handshake = None;
                self.answered_hello = None;
                self.send_key = send_key;
                self.recv_key = recv_key;
                self.send_counter = 0;
                self.recv_floor = 0;
                self.last_activity = now;
                let frame_out = self.flush();
                Emitted { plaintext: None, handshake: None, ciphertext: frame_out, fault: None }
            },
        }
    }

    fn hello_secret(&self, store: &CredentialStore, frame: &[u8]) -> (secret: Option<Vec<u8>>)
        requires
            frame@.len() == HELLO_LEN,
        ensures
            bytes_view(secret) == self@.hello_secret(store@, frame@),
    {
        if frame[2] == AUTH_NONE {
            if self.require_auth {
                None
            } else {
                Some(Vec::new())
            }
        } else {
            match store.find_secret(frame[2], slice_subrange(frame, 3, 11), &self.her_address) {
                Some(found) => Some(slice_to_vec(found.as_slice())),
                None => None,
            }
        }
    }

    fn respond(&mut self, hello: &[u8], secret: &[u8], her_temp: &[u8; 32], entropy: &[u8], now: u64) -> (out: Emitted)
        requires
            entropy@.len() == ENTROPY_LEN,
        ensures
            (final(self)@, out@) == old(self)@.responded(hello@, secret@, her_temp@, entropy@, now),
    {
        proof {
            use_type_invariant(&*self);
        }
        let temp = array_at::<32>(entropy, 0);
        let nonce = array_at::<12>(entropy, 32);
        let built = build_key_message(
            self.variant,
            secret,
            &self.our_private,
            &self.our_public,
            &self.her_public,
            her_temp,
            &temp,
            &nonce,
        );
        match built {
            None => Emitted::silent(None),
            Some(message) => {
                let shared = x25519(&temp, her_temp);
                let empty: Vec<u8> = Vec::new();
                let send_key = derive_key(
                    LABEL_RESPONDER_SENDS,
                    self.variant,
                    &self.her_public,
                    &self.our_public,
                    &shared,
                    empty.as_slice(),
                );
                let recv_key = derive_key(
                    LABEL_INITIATOR_SENDS,
                    self.variant,
                    &self.her_public,
                    &self.our_public,
                    &shared,
                    empty.as_slice(),
                );
                assert(empty@ =~= Seq::<u8>::empty());
                self.phase = Phase::SentKey;
                self.temp_private = None;
                self.sent_handshake = Some(message.clone());
                self.answered_hello = Some(slice_to_vec(hello));
                self.send_key = send_key;
                self.recv_key = recv_key;
                self.send_counter = 0;
                self.recv_floor = 0;
                self.last_activity = now;
                self.handshake_attempts = add_saturating(self.handshake_attempts, 1);
                Emitted { plaintext: None, handshake: Some(message), ciphertext: None, fault: None }
            },
        }
    }

    fn inbound_hello(&mut self, store: &CredentialStore, frame: &[u8], now: u64, entropy: Option<Vec<u8>>) -> (out: Emitted)
        ensures
            (final(self)@, out@) == old(self)@.inbound_hello(store@, frame@, now, bytes_view(entropy)),
    {
        proof {
            use_type_invariant(&*self);
        }
        if frame.len() != HELLO_LEN || frame[2] > AUTH_LOGIN {
            return Emitted::silent(Some(ProtocolFault::MalformedHandshake));
        }
        let answered = match &self.answered_hello {
            Some(hello) => bytes_equal(hello.as_slice(), frame),
            None => false,
        };
        if self.phase == Phase::SentKey && answered {
            return Emitted {
                plaintext: None,
                handshake: copy_bytes(&self.sent_handshake),
                ciphertext: None,
                fault: Some(ProtocolFault::ReplayedHandshake),
            };
        }
        if self.phase == Phase::SentHello && bytes_less(self.our_public.as_slice(), self.her_public.as_slice()) {
            return Emitted::silent(None);
        }
        let secret = match self.hello_secret(store, frame) {
            Some(secret) => secret,
            None => {
                return self.reject();
            },
        };
        let shared_static = x25519(&self.our_private, &self.her_public);
        let key = derive_key(
            LABEL_HELLO,
            self.variant,
            &self.her_public,
            &self.our_public,
            &shared_static,
            secret.as_slice(),
        );
        let nonce = array_at::<12>(frame, 11);
        let opened = aead_open(&key, &nonce, slice_subrange(frame, 0, 23), slice_subrange(frame, 23, frame.len()));
        match opened {
            None => self.reject(),
            Some(carried) => {
                if carried.len() != 32 {
                    return Emitted::silent(Some(ProtocolFault::MalformedHandshake));
                }
                let her_temp = array_at::<32>(carried.as_slice(), 0);
                assert(her_temp@ =~= carried@);
                match entropy {
                    Some(fresh) => {
                        if fresh.len() == ENTROPY_LEN {
                            self.respond(frame, secret.as_slice(), &her_temp, fresh.as_slice(), now)
                        } else {
                            Emitted::silent(None)
                        }
                    },
                    None => Emitted::silent(None),
                }
            },
        }
    }

    fn inbound_bootstrap(&mut self, frame: &[u8]) -> (out: Emitted)
        requires
            frame@.len() >= FRAME_HEADER_LEN,
        ensures
            (final(self)@, out@) == old(self)@.inbound_bootstrap(frame@),
    {
        proof {
            use_type_invariant(&*self);
        }
        if self.require_auth {
            return Emitted::silent(Some(ProtocolFault::MalformedHandshake));
        }
        let payload = slice_to_vec(slice_subrange(frame, 2, frame.len()));
        self.bytes_received = add_saturating(self.bytes_received, payload.len());
        Emitted { plaintext: Some(payload), handshake: None, ciphertext: None, fault: None }
    }

    /// Takes the step for a frame that entered the ciphertext endpoint at
    /// time `now`. `entropy` is what the randomness source supplied for an
    /// answer; without it a hello that deserves an answer is dropped.
    pub fn handle_inbound(&mut self, store: &CredentialStore, frame: &[u8], now: u64, entropy: Option<Vec<u8>>) -> (out: Emitted)
        ensures
            (final(self)@, out@) == old(self)@.after_inbound(store@, frame@, now, bytes_view(entropy)),
            final(self)@.wf(),
    {
        proof {
            use_type_invariant(&*self);
        }
        let out = if frame.len() < FRAME_HEADER_LEN || frame[1] != self.variant.tag() {
            Emitted::silent(Some(ProtocolFault::MalformedHandshake))
        } else if self.phase == Phase::Errored {
            Emitted::silent(None)
        } else if frame[0] == KIND_DATA {
            self.inbound_data(frame, now)
        } else if self.phase == Phase::Established {
            Emitted::silent(Some(ProtocolFault::BadAuthentication))
        } else if frame[0] == KIND_HELLO {
            self.inbound_hello(store, frame, now, entropy)
        } else if frame[0] == KIND_KEY {
            self.inbound_key(frame, now)
        } else if frame[0] == KIND_BOOTSTRAP {
            self.inbound_bootstrap(frame)
        } else {
            Emitted::silent(Some(ProtocolFault::MalformedHandshake))
        };
        proof {
            use_type_invariant(&*self);
        }
        out
    }

    fn handshake_step(&mut self, entropy: Option<Vec<u8>>) -> (message: Option<Vec<u8>>)
        ensures
            (final(self)@, bytes_view(message)) == old(self)@.handshake_step(bytes_view(entropy)),
    {
        proof {
            use_type_invariant(&*self);
        }
        match self.phase {
            Phase::Init => match entropy {
                Some(fresh) => {
                    if fresh.len() != ENTROPY_LEN {
                        return None;
                    }
                    let temp = array_at::<32>(fresh.as_slice(), 0);
                    let nonce = array_at::<12>(fresh.as_slice(), 32);
                    let built = build_hello(
                        self.variant,
                        &self.auth,
                        &self.our_private,
                        &self.our_public,
                        &self.her_public,
                        &temp,
                        &nonce,
                    );
                    match built {
                        Some(hello) => {
                            self.phase = Phase::SentHello;
                            self.temp_private = Some(temp);
                            self.sent_handshake = Some(hello.clone());
                            self.handshake_attempts = add_saturating(self.handshake_attempts, 1);
                            Some(hello)
                        },
                        None => None,
                    }
                },
                None => None,
            },
            Phase::SentHello => copy_bytes(&self.sent_handshake),
            Phase::SentKey => copy_bytes(&self.sent_handshake),
            _ => None,
        }
    }

    /// Takes the step for application bytes that entered the plaintext
    /// endpoint. `entropy` is what the randomness source supplied for a
    /// hello; without it no handshake is opened.
    ///
    /// An established session seals every payload of at most
    /// `MAX_SEALED_LEN` bytes while its counter lasts, and the frame it
    /// emits delivers the payload: every session that it sends to in step
    /// hands on exactly these bytes when the frame reaches it.
    pub fn handle_outbound(&mut self, payload: &[u8], entropy: Option<Vec<u8>>) -> (out: Emitted)
        ensures
            (final(self)@, out@) == old(self)@.after_outbound(payload@, bytes_view(entropy)),
            final(self)@.wf(),
            old(self)@.phase == Phase::Established && old(self)@.send_counter < u64::MAX && payload@.len()
                <= MAX_SEALED_LEN ==> out@.ciphertext is Some,
            old(self)@.phase == Phase::Established ==> (out@.ciphertext matches Some(frame) ==> delivers(
                old(self)@,
                frame,
                payload@,
            )),
    {
        proof {
            use_type_invariant(&*self);
        }
        let out = if self.phase == Phase::Established {
            let frame = self.seal_data(payload);
            Emitted { plaintext: None, handshake: None, ciphertext: frame, fault: None }
        } else {
            let handshake = self.handshake_step(entropy);
            if self.require_auth {
                self.pending = Some(slice_to_vec(payload));
                Emitted { plaintext: None, handshake, ciphertext: None, fault: None }
            } else {
                self.bytes_sent = add_saturating(self.bytes_sent, payload.len());
                Emitted {
                    plaintext: None,
                    handshake,
                    ciphertext: Some(build_bootstrap_frame(self.variant, payload)),
                    fault: None,
                }
            }
        };
        proof {
            use_type_invariant(&*self);
        }
        out
    }
}

} // verus!
