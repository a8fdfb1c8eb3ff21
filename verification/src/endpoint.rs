//! The two ends of a session's pipeline.
//!
//! Bytes from the application enter at the plaintext endpoint, frames from
//! the network at the ciphertext endpoint. An endpoint reads the clock and
//! draws from the randomness source what the step may need, hands all of it
//! to the session, and returns what the session emitted.
use vstd::prelude::*;
use crate::agreement::delivers;
use crate::context::CryptoAuth;
use crate::model::Phase;
use crate::primitives::MAX_SEALED_LEN;
use crate::session::{bytes_view, Emitted, Session};
use crate::sources::{Clock, RandomFailure, RandomSource};
use crate::wire::{ENTROPY_LEN, KIND_HELLO};

verus! {

/// The side of a session an endpoint faces.
#[derive(Debug, Clone, Copy, PartialEq, Eq, Structural)]
pub enum Side {
    /// Faces the application.
    Plaintext,
    /// Faces the network.
    Ciphertext,
}

/// One end of a session's pipeline.
#[derive(Debug, Clone, Copy, PartialEq, Eq, Structural)]
pub struct PipelineEndpoint {
    pub side: Side,
}

/// What the randomness source supplied for one handshake message, if it is usable.
fn draw_entropy<R: RandomSource>(random: &mut R) -> (entropy: Option<Vec<u8>>)
    ensures
        entropy matches Some(fresh) ==> fresh@.len() == ENTROPY_LEN,
{
    usable_entropy(random.fill(ENTROPY_LEN))
}

/// What of a draw from the randomness source can seed a handshake message:
/// the bytes drawn where the source supplied exactly as many as one message
/// takes, and nothing where it failed or supplied another number.
pub fn usable_entropy(drawn: Result<Vec<u8>, RandomFailure>) -> (entropy: Option<Vec<u8>>)
    ensures
        bytes_view(entropy) == match drawn {
            Ok(fresh) => if fresh@.len() == ENTROPY_LEN {
                Some(fresh@)
            } else {
                None
            },
            Err(_) => None,
        },
{
    match drawn {
        Ok(fresh) => if fresh.len() == ENTROPY_LEN {
            Some(fresh)
        } else {
            None
        },
        Err(_) => None,
    }
}

impl PipelineEndpoint {
    /// The endpoint that faces `side`.
    pub fn new(side: Side) -> (endpoint: PipelineEndpoint)
        ensures
            endpoint.side == side,
    {
        PipelineEndpoint { side }
    }

    /// Sends `bytes` into the session through this endpoint. The session
    /// takes the outbound step at the plaintext endpoint and the inbound
    /// step at the ciphertext endpoint, with whatever the clock showed and
    /// the randomness source supplied.
    ///
    /// What an established session emits for bytes that entered its
    /// plaintext endpoint delivers them: the plaintext endpoint of every
    /// session that it sends to in step emits exactly these bytes when the
    /// frame enters that session's ciphertext endpoint.
    pub fn send<R: RandomSource, C: Clock>(
        &self,
        session: &mut Session,
        context: &CryptoAuth,
        bytes: &[u8],
        random: &mut R,
        clock: &C,
    ) -> (out: Emitted)
        ensures
            self.side == Side::Plaintext ==> exists|entropy: Option<Seq<u8>>|
                (final(session)@, out@) == #[trigger] old(session)@.after_outbound(bytes@, entropy),
            self.side == Side::Ciphertext ==> exists|now: u64, entropy: Option<Seq<u8>>|
                (final(session)@, out@) == #[trigger] old(session)@.after_inbound(
                    context.users(),
                    bytes@,
                    now,
                    entropy,
                ),
            final(session)@.wf(),
            self.side == Side::Plaintext && old(session)@.phase == Phase::Established ==> (out@.ciphertext
                matches Some(frame) ==> delivers(old(session)@, frame, bytes@)),
            self.side == Side::Plaintext && old(session)@.phase == Phase::Established && old(
                session,
            )@.send_counter < u64::MAX && bytes@.len() <= MAX_SEALED_LEN ==> out@.ciphertext is Some,
    {
        match self.side {
            Side::Plaintext => {
                let entropy = match session.phase() {
                    Phase::Init => draw_entropy(random),
                    _ => None,
                };
                let ghost drawn = bytes_view(entropy);
                let out = session.handle_outbound(bytes, entropy);
                assert((session@, out@) == old(session)@.after_outbound(bytes@, drawn));
                out
            },
            Side::Ciphertext => {
                let now = clock.now_millis();
                let answers = match session.phase() {
                    Phase::Established => false,
                    Phase::Errored => false,
                    _ => bytes.len() > 0 && bytes[0] == KIND_HELLO,
                };
                let entropy = if answers {
                    draw_entropy(random)
                } else {
                    None
                };
                let ghost drawn = bytes_view(entropy);
                let out = session.handle_inbound(context.store(), bytes, now, entropy);
                assert((session@, out@) == old(session)@.after_inbound(context.users(), bytes@, now, drawn));
                out
            },
        }
    }
}

} // verus!
