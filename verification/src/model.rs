//! The session state machine, as a function from a state and an event to the
//! next state and what the session emits.
//!
//! The executable session in [`crate::session`] is proved to take exactly
//! these steps. Everything a peer can trigger is absorbed here: a frame that
//! fails is dropped or moves the session to [`Phase::Errored`], and no step
//! fails.
//!
//! Four choices are fixed here. A session holds back at most one unit of
//! application bytes, the latest. It is reset after
//! [`RESET_AFTER_INACTIVITY_MS`] without a validated inbound frame, whatever
//! its phase. An established session is never reset on account of frames
//! that fail: no count of failures unsettles it, only the timeout does. And
//! data frames are accepted in the order of their counters only: one that
//! comes late is dropped.
//!
//! One unit of application bytes that is to be sealed holds at most
//! `MAX_SEALED_LEN` bytes: a longer one is dropped, and so is a data frame
//! that would carry more.
use vstd::prelude::*;
use vstd::bytes::spec_u64_from_le_bytes;
use crate::bytes::lex_less;
use crate::credentials::{secret_for, EntryView, AUTH_LOGIN, AUTH_NONE};
use crate::handshake::{
    auth_secret_of, derived_key, hello_message, key_message, CredentialsView, LABEL_HELLO,
    LABEL_INITIATOR_SENDS, LABEL_KEY, LABEL_RESPONDER_SENDS,
};
use crate::keys::{address_of, public_key_of};
use crate::primitives::{aead_opened, aead_sealed, x25519_output, MAX_SEALED_LEN};
use crate::wire::{
    bootstrap_frame, data_header, data_nonce, HandshakeVariant, DATA_HEADER_LEN, ENTROPY_LEN,
    FRAME_HEADER_LEN, HELLO_LEN, KEY_MESSAGE_LEN, KIND_BOOTSTRAP,
    KIND_DATA, KIND_HELLO, KIND_KEY,
};

verus! {

/// A session that has validated no inbound frame for longer than this many
/// milliseconds is reset when it is polled.
pub const RESET_AFTER_INACTIVITY_MS: u64 = 60_000;

/// Where a session stands in its handshake.
#[derive(Debug, Clone, Copy, PartialEq, Eq, Structural)]
pub enum Phase {
    /// Nothing negotiated.
    Init,
    /// We sent a hello and wait for the key message.
    SentHello,
    /// We answered a hello with a key message and wait for the first data frame.
    SentKey,
    /// Both session keys are confirmed.
    Established,
    /// A handshake failed authentication while authentication is required.
    Errored,
}

/// Where a session stands, as others see it.
#[derive(Debug, Clone, Copy, PartialEq, Eq, Structural)]
pub enum State {
    /// Nothing negotiated and no handshake under way.
    Uninitialized,
    /// A handshake was begun and is not done; one that failed counts as
    /// such until the session is reset.
    Handshaking,
    /// Both session keys are confirmed.
    Established,
}

/// Why a frame from the peer was not accepted. A fault never fails a call: it
/// is reported beside what the session emitted, for diagnostics.
#[derive(Debug, Clone, Copy, PartialEq, Eq, Structural)]
pub enum ProtocolFault {
    /// The credential is unknown or a box did not open under the expected key.
    BadAuthentication,
    /// The frame has the wrong shape, variant or place in the handshake.
    MalformedHandshake,
    /// The hello was answered before; the answer was sent again.
    ReplayedHandshake,
}

/// A session as plain values.
pub struct SessionView {
    pub our_private: Seq<u8>,
    pub our_public: Seq<u8>,
    pub her_public: Seq<u8>,
    pub her_address: Seq<u8>,
    pub require_auth: bool,
    pub name: Option<Seq<char>>,
    pub variant: HandshakeVariant,
    pub auth: Option<CredentialsView>,
    pub phase: Phase,
    /// Our temporary private key, while our hello is unanswered.
    pub temp_private: Option<Seq<u8>>,
    /// The handshake message we sent last.
    pub sent_handshake: Option<Seq<u8>>,
    /// The hello that our key message answers.
    pub answered_hello: Option<Seq<u8>>,
    pub send_key: Seq<u8>,
    pub recv_key: Seq<u8>,
    /// Counter of the next data frame we send.
    pub send_counter: u64,
    /// Least counter we still accept in a data frame.
    pub recv_floor: u64,
    /// The one unit of application bytes held back until the handshake is done.
    pub pending: Option<Seq<u8>>,
    /// When the session was made, last reset by a timeout, or last validated a frame.
    pub last_activity: u64,
    pub bytes_sent: u64,
    pub bytes_received: u64,
    pub handshake_attempts: u64,
}

/// What one step made the session emit.
pub struct EmittedView {
    /// Bytes that leave the plaintext endpoint, towards the application.
    pub plaintext: Option<Seq<u8>>,
    /// A handshake message that leaves the ciphertext endpoint.
    pub handshake: Option<Seq<u8>>,
    /// A data or bootstrap frame that leaves the ciphertext endpoint, after
    /// the handshake message if there is one.
    pub ciphertext: Option<Seq<u8>>,
    /// Why the inbound frame was not accepted, if it was not.
    pub fault: Option<ProtocolFault>,
}

/// A snapshot of a session's counters.
#[derive(Debug, Clone, Copy, PartialEq, Eq, Structural)]
pub struct Stats {
    /// Application bytes that left the ciphertext endpoint, sealed or in
    /// bootstrap frames.
    pub bytes_sent: u64,
    /// Bytes that left the plaintext endpoint.
    pub bytes_received: u64,
    /// Milliseconds since the last validated inbound frame, or since the
    /// session was made or reset by a timeout if that was later.
    pub time_since_last_receive: u64,
    pub state: State,
    /// Handshake messages made afresh: hellos opened and hellos answered.
    pub handshake_attempt_count: u64,
}

/// The length of the longest data frame: its header, the longest message
/// that is sealed, and the tag.
pub open spec fn max_data_frame_len() -> int {
    DATA_HEADER_LEN + MAX_SEALED_LEN + 16
}

/// A key that holds nothing.
pub open spec fn zero_key() -> Seq<u8> {
    Seq::new(32, |i: int| 0u8)
}

/// `a + n`, or the greatest value where that does not fit.
pub open spec fn saturating_sum(a: u64, n: nat) -> u64 {
    if a + n > u64::MAX {
        u64::MAX
    } else {
        (a + n) as u64
    }
}

/// `a - b`, or zero where `b` is the greater.
pub open spec fn saturating_difference(a: u64, b: u64) -> u64 {
    if a >= b {
        (a - b) as u64
    } else {
        0
    }
}

/// A step that emits nothing and reports `fault`.
pub open spec fn silence(fault: Option<ProtocolFault>) -> EmittedView {
    EmittedView { plaintext: None, handshake: None, ciphertext: None, fault }
}

impl SessionView {
    /// The session as it is made: in `Init`, with nothing negotiated.
    pub open spec fn initial(
        our_private: Seq<u8>,
        her_public: Seq<u8>,
        require_auth: bool,
        name: Option<Seq<char>>,
        variant: HandshakeVariant,
        now: u64,
    ) -> SessionView {
        SessionView {
            our_private,
            our_public: public_key_of(our_private),
            her_public,
            her_address: address_of(her_public),
            require_auth,
            name,
            variant,
            auth: None,
            phase: Phase::Init,
            temp_private: None,
            sent_handshake: None,
            answered_hello: None,
            send_key: zero_key(),
            recv_key: zero_key(),
            send_counter: 0,
            recv_floor: 0,
            pending: None,
            last_activity: now,
            bytes_sent: 0,
            bytes_received: 0,
            handshake_attempts: 0,
        }
    }

    /// The fixed parts of a session agree: the public key is derived from the
    /// private key, the address from the peer's key.
    pub open spec fn wf(self) -> bool {
        &&& self.our_private.len() == 32
        &&& self.our_public == public_key_of(self.our_private)
        &&& self.her_public.len() == 32
        &&& self.her_address == address_of(self.her_public)
    }

    /// The state as others see it.
    pub open spec fn state(self) -> State {
        match self.phase {
            Phase::Init => State::Uninitialized,
            Phase::Established => State::Established,
            _ => State::Handshaking,
        }
    }

    /// The counters at time `now`.
    pub open spec fn stats(self, now: u64) -> Stats {
        Stats {
            bytes_sent: self.bytes_sent,
            bytes_received: self.bytes_received,
            time_since_last_receive: saturating_difference(now, self.last_activity),
            state: self.state(),
            handshake_attempt_count: self.handshake_attempts,
        }
    }

    /// The session without anything negotiated.
    pub open spec fn without_keys(self, phase: Phase) -> SessionView {
        SessionView {
            phase,
            temp_private: None,
            sent_handshake: None,
            answered_hello: None,
            send_key: zero_key(),
            recv_key: zero_key(),
            send_counter: 0,
            recv_floor: 0,
            ..self
        }
    }

    /// The session after `reset`: back in `Init`, with nothing negotiated,
    /// nothing held back and all counters at zero.
    pub open spec fn after_reset(self) -> SessionView {
        SessionView {
            pending: None,
            bytes_sent: 0,
            bytes_received: 0,
            handshake_attempts: 0,
            ..self.without_keys(Phase::Init)
        }
    }

    /// Whether the session has been inactive for too long at time `now`.
    pub open spec fn timed_out(self, now: u64) -> bool {
        saturating_difference(now, self.last_activity) > RESET_AFTER_INACTIVITY_MS
    }

    /// The session after it is polled for a timeout at time `now`.
    pub open spec fn after_timeout_poll(self, now: u64) -> SessionView {
        if self.timed_out(now) {
            SessionView { last_activity: now, ..self.after_reset() }
        } else {
            self
        }
    }

    /// The session after `set_auth`: the credential is replaced unless the
    /// session is established.
    pub open spec fn after_set_auth(self, auth: Option<CredentialsView>) -> SessionView {
        if self.phase == Phase::Established {
            self
        } else {
            SessionView { auth, ..self }
        }
    }

    /// The frame dropped, with a fault reported or none.
    pub open spec fn dropped(self, fault: Option<ProtocolFault>) -> (SessionView, EmittedView) {
        (self, silence(fault))
    }

    /// The frame failed authentication: the session moves to `Errored` if it
    /// requires authentication and is not established, and stays as it is
    /// otherwise.
    pub open spec fn rejected(self) -> (SessionView, EmittedView) {
        if self.require_auth && self.phase != Phase::Established {
            (self.without_keys(Phase::Errored), silence(Some(ProtocolFault::BadAuthentication)))
        } else {
            (self, silence(Some(ProtocolFault::BadAuthentication)))
        }
    }

    /// The data frame that carries `payload`, and the session after sending
    /// it; `None` where the counter is used up, the payload is longer than
    /// `MAX_SEALED_LEN` or the cipher refuses.
    pub open spec fn sealed_data(self, payload: Seq<u8>) -> Option<(SessionView, Seq<u8>)> {
        if self.send_counter == u64::MAX || payload.len() > MAX_SEALED_LEN {
            None
        } else {
            let header = data_header(self.variant, self.send_counter);
            match aead_sealed(self.send_key, data_nonce(header.subrange(2, 10)), header, payload) {
                Some(boxed) => Some(
                    (
                        SessionView {
                            send_counter: (self.send_counter + 1) as u64,
                            bytes_sent: saturating_sum(self.bytes_sent, payload.len()),
                            ..self
                        },
                        header + boxed,
                    ),
                ),
                None => None,
            }
        }
    }

    /// The unit held back leaves as a data frame, if there is one.
    pub open spec fn flushed(self) -> (SessionView, Option<Seq<u8>>) {
        match self.pending {
            None => (self, None),
            Some(unit) => match self.sealed_data(unit) {
                Some((next, frame)) => (SessionView { pending: None, ..next }, Some(frame)),
                None => (SessionView { pending: None, ..self }, None),
            },
        }
    }

    /// A data frame arrived.
    pub open spec fn inbound_data(self, frame: Seq<u8>, now: u64) -> (SessionView, EmittedView) {
        if self.phase != Phase::SentKey && self.phase != Phase::Established {
            self.dropped(Some(ProtocolFault::MalformedHandshake))
        } else if frame.len() < DATA_HEADER_LEN || frame.len() > max_data_frame_len() {
            self.dropped(Some(ProtocolFault::MalformedHandshake))
        } else {
            let counter = spec_u64_from_le_bytes(frame.subrange(2, 10));
            if counter < self.recv_floor || counter == u64::MAX {
                self.rejected()
            } else {
                match aead_opened(
                    self.recv_key,
                    data_nonce(frame.subrange(2, 10)),
                    frame.subrange(0, 10),
                    frame.subrange(10, frame.len() as int),
                ) {
                    None => self.rejected(),
                    Some(payload) => {
                        let confirmed = SessionView {
                            phase: Phase::Established,
                            sent_handshake: None,
                            answered_hello: None,
                            recv_floor: (counter + 1) as u64,
                            last_activity: now,
                            bytes_received: saturating_sum(self.bytes_received, payload.len()),
                            ..self
                        };
                        let (next, frame_out) = if self.phase == Phase::SentKey {
                            confirmed.flushed()
                        } else {
                            (confirmed, None)
                        };
                        (
                            next,
                            EmittedView { plaintext: Some(payload), handshake: None, ciphertext: frame_out, fault: None },
                        )
                    },
                }
            }
        }
    }

    /// A key message arrived.
    pub open spec fn inbound_key(self, frame: Seq<u8>, now: u64) -> (SessionView, EmittedView) {
        if self.phase != Phase::SentHello || frame.len() != KEY_MESSAGE_LEN {
            self.dropped(Some(ProtocolFault::MalformedHandshake))
        } else {
            match self.temp_private {
                None => self.dropped(Some(ProtocolFault::MalformedHandshake)),
                Some(temp) => {
                    let key = derived_key(
                        LABEL_KEY,
                        self.variant,
                        self.our_public,
                        self.her_public,
                        x25519_output(temp, self.her_public),
                        auth_secret_of(self.auth),
                    );
                    match aead_opened(
                        key,
                        frame.subrange(2, 14),
                        frame.subrange(0, 14),
                        frame.subrange(14, frame.len() as int),
                    ) {
                        None => self.rejected(),
                        Some(her_temp) => if her_temp.len() != 32 {
                            self.dropped(Some(ProtocolFault::MalformedHandshake))
                        } else {
                            let shared = x25519_output(temp, her_temp);
                            let confirmed = SessionView {
                                phase: Phase::Established,
                                temp_private: None,
                                sent_handshake: None,
                                answered_hello: None,
                                send_key: derived_key(
                                    LABEL_INITIATOR_SENDS,
                                    self.variant,
                                    self.our_public,
                                    self.her_public,
                                    shared,
                                    Seq::empty(),
                                ),
                                recv_key: derived_key(
                                    LABEL_RESPONDER_SENDS,
                                    self.variant,
                                    self.our_public,
                                    self.her_public,
                                    shared,
                                    Seq::empty(),
                                ),
                                send_counter: 0,
                                recv_floor: 0,
                                last_activity: now,
                                ..self
                            };
                            let (next, frame_out) = confirmed.flushed();
                            (
                                next,
                                EmittedView { plaintext: None, handshake: None, ciphertext: frame_out, fault: None },
                            )
                        },
                    }
                },
            }
        }
    }

    /// The secret under which a hello must open: none where the hello
    /// presents no credential and none is required, that of the first
    /// matching entry of the store where it presents one.
    pub open spec fn hello_secret(self, store: Seq<EntryView>, frame: Seq<u8>) -> Option<Seq<u8>> {
        if frame[2] == AUTH_NONE {
            if self.require_auth {
                None
            } else {
                Some(Seq::empty())
            }
        } else {
            secret_for(store, frame[2], frame.subrange(3, 11), self.her_address)
        }
    }

    /// We answer a hello that carried `her_temp` and opened under `secret`.
    pub open spec fn responded(
        self,
        hello: Seq<u8>,
        secret: Seq<u8>,
        her_temp: Seq<u8>,
        entropy: Seq<u8>,
        now: u64,
    ) -> (SessionView, EmittedView) {
        let temp = entropy.subrange(0, 32);
        match key_message(
            self.variant,
            secret,
            self.our_private,
            self.our_public,
            self.her_public,
            her_temp,
            temp,
            entropy.subrange(32, 44),
        ) {
            None => self.dropped(None),
            Some(message) => {
                let shared = x25519_output(temp, her_temp);
                (
                    SessionView {
                        phase: Phase::SentKey,
                        temp_private: None,
                        sent_handshake: Some(message),
                        answered_hello: Some(hello),
                        send_key: derived_key(
                            LABEL_RESPONDER_SENDS,
                            self.variant,
                            self.her_public,
                            self.our_public,
                            shared,
                            Seq::empty(),
                        ),
                        recv_key: derived_key(
                            LABEL_INITIATOR_SENDS,
                            self.variant,
                            self.her_public,
                            self.our_public,
                            shared,
                            Seq::empty(),
                        ),
                        send_counter: 0,
                        recv_floor: 0,
                        last_activity: now,
                        handshake_attempts: saturating_sum(self.handshake_attempts, 1),
                        ..self
                    },
                    EmittedView { plaintext: None, handshake: Some(message), ciphertext: None, fault: None },
                )
            },
        }
    }

    /// A hello arrived.
    pub open spec fn inbound_hello(
        self,
        store: Seq<EntryView>,
        frame: Seq<u8>,
        now: u64,
        entropy: Option<Seq<u8>>,
    ) -> (SessionView, EmittedView) {
        if frame.len() != HELLO_LEN || frame[2] > AUTH_LOGIN {
            self.dropped(Some(ProtocolFault::MalformedHandshake))
        } else if self.phase == Phase::SentKey && self.answered_hello == Some(frame) {
            (
                self,
                EmittedView {
                    plaintext: None,
                    handshake: self.sent_handshake,
                    ciphertext: None,
                    fault: Some(ProtocolFault::ReplayedHandshake),
                },
            )
        } else if self.phase == Phase::SentHello && lex_less(self.our_public, self.her_public) {
            self.dropped(None)
        } else {
            match self.hello_secret(store, frame) {
                None => self.rejected(),
                Some(secret) => {
                    let key = derived_key(
                        LABEL_HELLO,
                        self.variant,
                        self.her_public,
                        self.our_public,
                        x25519_output(self.our_private, self.her_public),
                        secret,
                    );
                    match aead_opened(
                        key,
                        frame.subrange(11, 23),
                        frame.subrange(0, 23),
                        frame.subrange(23, frame.len() as int),
                    ) {
                        None => self.rejected(),
                        Some(her_temp) => if her_temp.len() != 32 {
                            self.dropped(Some(ProtocolFault::MalformedHandshake))
                        } else {
                            match entropy {
                                Some(fresh) => if fresh.len() == ENTROPY_LEN {
                                    self.responded(frame, secret, her_temp, fresh, now)
                                } else {
                                    self.dropped(None)
                                },
                                None => self.dropped(None),
                            }
                        },
                    }
                },
            }
        }
    }

    /// A bootstrap frame arrived: its payload passes through unauthenticated
    /// where the session does not require authentication.
    pub open spec fn inbound_bootstrap(self, frame: Seq<u8>) -> (SessionView, EmittedView) {
        if self.require_auth {
            self.dropped(Some(ProtocolFault::MalformedHandshake))
        } else {
            let payload = frame.subrange(2, frame.len() as int);
            (
                SessionView { bytes_received: saturating_sum(self.bytes_received, payload.len()), ..self },
                EmittedView { plaintext: Some(payload), handshake: None, ciphertext: None, fault: None },
            )
        }
    }

    /// The step a session takes when `frame` enters its ciphertext endpoint
    /// at time `now`, with `entropy` at hand for an answer.
    pub open spec fn after_inbound(
        self,
        store: Seq<EntryView>,
        frame: Seq<u8>,
        now: u64,
        entropy: Option<Seq<u8>>,
    ) -> (SessionView, EmittedView) {
        if frame.len() < FRAME_HEADER_LEN || frame[1] != self.variant.tag_spec() {
            self.dropped(Some(ProtocolFault::MalformedHandshake))
        } else if self.phase == Phase::Errored {
            self.dropped(None)
        } else if frame[0] == KIND_DATA {
            self.inbound_data(frame, now)
        } else if self.phase == Phase::Established {
            self.dropped(Some(ProtocolFault::BadAuthentication))
        } else if frame[0] == KIND_HELLO {
            self.inbound_hello(store, frame, now, entropy)
        } else if frame[0] == KIND_KEY {
            self.inbound_key(frame, now)
        } else if frame[0] == KIND_BOOTSTRAP {
            self.inbound_bootstrap(frame)
        } else {
            self.dropped(Some(ProtocolFault::MalformedHandshake))
        }
    }

    /// The handshake message that goes out with application bytes while the
    /// session is not established: a fresh hello from `Init`, the message
    /// sent last while a handshake is under way.
    pub open spec fn handshake_step(self, entropy: Option<Seq<u8>>) -> (SessionView, Option<Seq<u8>>) {
        match self.phase {
            Phase::Init => match entropy {
                Some(fresh) => if fresh.len() == ENTROPY_LEN {
                    match hello_message(
                        self.variant,
                        self.auth,
                        self.our_private,
                        self.our_public,
                        self.her_public,
                        fresh.subrange(0, 32),
                        fresh.subrange(32, 44),
                    ) {
                        Some(hello) => (
                            SessionView {
                                phase: Phase::SentHello,
                                temp_private: Some(fresh.subrange(0, 32)),
                                sent_handshake: Some(hello),
                                handshake_attempts: saturating_sum(self.handshake_attempts, 1),
                                ..self
                            },
                            Some(hello),
                        ),
                        None => (self, None),
                    }
                } else {
                    (self, None)
                },
                None => (self, None),
            },
            Phase::SentHello => (self, self.sent_handshake),
            Phase::SentKey => (self, self.sent_handshake),
            _ => (self, None),
        }
    }

    /// The step a session takes when `payload` enters its plaintext endpoint,
    /// with `entropy` at hand for a hello.
    pub open spec fn after_outbound(self, payload: Seq<u8>, entropy: Option<Seq<u8>>) -> (SessionView, EmittedView) {
        if self.phase == Phase::Established {
            match self.sealed_data(payload) {
                Some((next, frame)) => (
                    next,
                    EmittedView { plaintext: None, handshake: None, ciphertext: Some(frame), fault: None },
                ),
                None => (self, silence(None)),
            }
        } else {
            let (next, handshake) = self.handshake_step(entropy);
            if self.require_auth {
                (
                    SessionView { pending: Some(payload), ..next },
                    EmittedView { plaintext: None, handshake, ciphertext: None, fault: None },
                )
            } else {
                (
                    SessionView { bytes_sent: saturating_sum(next.bytes_sent, payload.len()), ..next },
                    EmittedView {
                        plaintext: None,
                        handshake,
                        ciphertext: Some(bootstrap_frame(self.variant, payload)),
                        fault: None,
                    },
                )
            }
        }
    }
}

} // verus!
