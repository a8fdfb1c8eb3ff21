//! What holds of every session, proved over the state machine of
//! [`crate::model`].
use vstd::prelude::*;
use crate::credentials::{labels, EntryView};
use crate::handshake::CredentialsView;
use crate::model::{EmittedView, Phase, ProtocolFault, SessionView, State};
use crate::wire::{bootstrap_frame, HELLO_LEN, KIND_HELLO};

verus! {

/// Anything that can happen to a session.
pub enum Event {
    /// A frame enters the ciphertext endpoint.
    Inbound { store: Seq<EntryView>, frame: Seq<u8>, now: u64, entropy: Option<Seq<u8>> },
    /// Application bytes enter the plaintext endpoint.
    Outbound { payload: Seq<u8>, entropy: Option<Seq<u8>> },
    /// The credential to present is set.
    SetAuth { auth: Option<CredentialsView> },
    /// The session is reset.
    Reset,
    /// The session is polled for a timeout.
    TimeoutPoll { now: u64 },
}

/// The session after an event, and what it emitted.
pub open spec fn after_event(s: SessionView, event: Event) -> (SessionView, EmittedView) {
    match event {
        Event::Inbound { store, frame, now, entropy } => s.after_inbound(store, frame, now, entropy),
        Event::Outbound { payload, entropy } => s.after_outbound(payload, entropy),
        Event::SetAuth { auth } => (s.after_set_auth(auth), crate::model::silence(None)),
        Event::Reset => (s.after_reset(), crate::model::silence(None)),
        Event::TimeoutPoll { now } => (s.after_timeout_poll(now), crate::model::silence(None)),
    }
}

/// The session after a run of events.
pub open spec fn after_run(s: SessionView, events: Seq<Event>) -> SessionView
    decreases events.len(),
{
    if events.len() == 0 {
        s
    } else {
        after_event(after_run(s, events.drop_last()), events.last()).0
    }
}

/// What the session emitted at the event with index `i` of a run.
pub open spec fn emitted_at(s: SessionView, events: Seq<Event>, i: int) -> EmittedView {
    after_event(after_run(s, events.take(i)), events[i]).1
}

/// The event discards the counters: a reset, or a poll that finds the
/// session timed out.
pub open spec fn discards_counters(s: SessionView, event: Event) -> bool {
    match event {
        Event::Reset => true,
        Event::TimeoutPoll { now } => s.timed_out(now),
        _ => false,
    }
}

/// No event of the run discards the counters.
pub open spec fn keeps_counters(s: SessionView, events: Seq<Event>) -> bool {
    forall|i: int| 0 <= i < events.len() ==> !discards_counters(after_run(s, #[trigger] events.take(i)), events[i])
}

/// A run of one more event is the run so far, then that event.
pub proof fn lemma_run_step(s: SessionView, events: Seq<Event>, i: int)
    requires
        0 <= i < events.len(),
    ensures
        after_run(s, events.take(i + 1)) == after_event(after_run(s, events.take(i)), events[i]).0,
{
    assert(events.take(i + 1).drop_last() =~= events.take(i));
    assert(events.take(i + 1).last() == events[i]);
}

/// No event changes who the two peers are, which handshake they speak or
/// whether authentication is required.
pub proof fn identity_is_fixed(s: SessionView, event: Event)
    ensures
        ({
            let t = after_event(s, event).0;
            &&& t.our_private == s.our_private
            &&& t.our_public == s.our_public
            &&& t.her_public == s.her_public
            &&& t.her_address == s.her_address
            &&& t.require_auth == s.require_auth
            &&& t.name == s.name
            &&& t.variant == s.variant
            &&& (s.wf() ==> t.wf())
        }),
{
}

/// The same holds of every run of events.
pub proof fn identity_is_fixed_in_runs(s: SessionView, events: Seq<Event>)
    ensures
        ({
            let t = after_run(s, events);
            &&& t.our_private == s.our_private
            &&& t.our_public == s.our_public
            &&& t.her_public == s.her_public
            &&& t.her_address == s.her_address
            &&& t.require_auth == s.require_auth
            &&& t.name == s.name
            &&& t.variant == s.variant
            &&& (s.wf() ==> t.wf())
        }),
    decreases events.len(),
{
    if events.len() > 0 {
        identity_is_fixed_in_runs(s, events.drop_last());
        identity_is_fixed(after_run(s, events.drop_last()), events.last());
    }
}

/// Two sessions of one node with peers of the same public key see the same
/// public key of their own and the same address of the peer.
pub proof fn keys_and_address_are_determined(a: SessionView, b: SessionView)
    requires
        a.wf(),
        b.wf(),
    ensures
        a.our_private == b.our_private ==> a.our_public == b.our_public,
        a.her_public == b.her_public ==> a.her_address == b.her_address,
{
}

/// Listing an empty store yields nothing: after every entry is removed, no
/// label is left.
pub proof fn empty_store_lists_nothing()
    ensures
        labels(Seq::<EntryView>::empty()) == Seq::<Seq<u8>>::empty(),
{
    assert(labels(Seq::<EntryView>::empty()) =~= Seq::<Seq<u8>>::empty());
}

/// A reset leaves the session uninitialized with all counters at zero, and a
/// second reset changes nothing.
pub proof fn reset_is_idempotent(s: SessionView)
    ensures
        s.after_reset().after_reset() == s.after_reset(),
        s.after_reset().state() == State::Uninitialized,
        s.after_reset().bytes_sent == 0,
        s.after_reset().bytes_received == 0,
        s.after_reset().handshake_attempts == 0,
        s.after_reset().pending is None,
{
}

/// A poll that finds the session timed out leaves it uninitialized, and a
/// second poll at the same time changes nothing.
pub proof fn timeout_poll_is_idempotent(s: SessionView, now: u64)
    ensures
        s.after_timeout_poll(now).after_timeout_poll(now) == s.after_timeout_poll(now),
        s.timed_out(now) ==> s.after_timeout_poll(now).state() == State::Uninitialized
            && s.after_timeout_poll(now).bytes_received == 0,
        !s.timed_out(now) ==> s.after_timeout_poll(now) == s,
{
}

/// A session that requires authentication emits plaintext only in a step
/// that leaves it established.
pub proof fn plaintext_needs_handshake(s: SessionView, event: Event)
    requires
        s.require_auth,
    ensures
        after_event(s, event).1.plaintext is Some ==> after_event(s, event).0.phase == Phase::Established,
{
}

/// A session that requires authentication and never gets established emits
/// no plaintext, whatever happens to it; once it is polled after its
/// inactivity threshold has passed, it is uninitialized.
pub proof fn silent_until_handshake(s: SessionView, events: Seq<Event>, now: u64)
    requires
        s.require_auth,
        forall|i: int| 0 <= i <= events.len() ==> after_run(s, #[trigger] events.take(i)).phase != Phase::Established,
    ensures
        forall|i: int| 0 <= i < events.len() ==> (#[trigger] emitted_at(s, events, i)).plaintext is None,
        after_run(s, events).timed_out(now) ==> after_run(s, events).after_timeout_poll(now).state()
            == State::Uninitialized,
{
    assert forall|i: int| 0 <= i < events.len() implies (#[trigger] emitted_at(s, events, i)).plaintext is None by {
        let before = after_run(s, events.take(i));
        identity_is_fixed_in_runs(s, events.take(i));
        plaintext_needs_handshake(before, events[i]);
        lemma_run_step(s, events, i);
        assert(after_run(s, events.take(i + 1)).phase != Phase::Established);
    }
}

/// Before the handshake is done, application bytes pass through to the
/// ciphertext endpoint in a bootstrap frame where authentication is not
/// required; where it is required they are held back, in place of what was
/// held before, and no frame carries them.
pub proof fn bootstrap_policy(s: SessionView, payload: Seq<u8>, entropy: Option<Seq<u8>>)
    requires
        s.phase != Phase::Established,
    ensures
        !s.require_auth ==> s.after_outbound(payload, entropy).1.ciphertext == Some(
            bootstrap_frame(s.variant, payload),
        ),
        s.require_auth ==> s.after_outbound(payload, entropy).1.ciphertext is None
            && s.after_outbound(payload, entropy).0.pending == Some(payload),
        s.after_outbound(payload, entropy).1.plaintext is None,
{
}

/// A bootstrap frame hands its payload to the plaintext endpoint of a
/// session that does not require authentication and is not established, and
/// to no other.
pub proof fn bootstrap_delivery(s: SessionView, store: Seq<EntryView>, payload: Seq<u8>, now: u64, entropy: Option<Seq<u8>>)
    ensures
        ({
            let (t, out) = s.after_inbound(store, bootstrap_frame(s.variant, payload), now, entropy);
            if !s.require_auth && s.phase != Phase::Established && s.phase != Phase::Errored {
                out.plaintext == Some(payload) && t.phase == s.phase
            } else {
                out.plaintext is None && t == s
            }
        }),
{
    let frame = bootstrap_frame(s.variant, payload);
    assert(frame.subrange(2, frame.len() as int) =~= payload);
}

/// The count of bytes received does not decrease in any event that is not a
/// reset or a poll that finds the session timed out.
pub proof fn bytes_received_never_decrease(s: SessionView, event: Event)
    requires
        !discards_counters(s, event),
    ensures
        after_event(s, event).0.bytes_received >= s.bytes_received,
        after_event(s, event).0.bytes_sent >= s.bytes_sent,
        after_event(s, event).0.handshake_attempts >= s.handshake_attempts,
{
}

/// The same holds of every run without such an event.
pub proof fn bytes_received_never_decrease_in_runs(s: SessionView, events: Seq<Event>)
    requires
        keeps_counters(s, events),
    ensures
        after_run(s, events).bytes_received >= s.bytes_received,
    decreases events.len(),
{
    if events.len() > 0 {
        let front = events.drop_last();
        assert forall|i: int| 0 <= i < front.len() implies !discards_counters(
            after_run(s, #[trigger] front.take(i)),
            front[i],
        ) by {
            assert(front.take(i) =~= events.take(i));
        }
        bytes_received_never_decrease_in_runs(s, front);
        assert(events.take(events.len() - 1) =~= front);
        bytes_received_never_decrease(after_run(s, front), events.last());
    }
}

/// A frame that yields no plaintext leaves an established session exactly as
/// it was: no failure of a peer's frame unsettles it.
pub proof fn established_survives_faults(
    s: SessionView,
    store: Seq<EntryView>,
    frame: Seq<u8>,
    now: u64,
    entropy: Option<Seq<u8>>,
)
    requires
        s.phase == Phase::Established,
    ensures
        s.after_inbound(store, frame, now, entropy).0.phase == Phase::Established,
        s.after_inbound(store, frame, now, entropy).1.plaintext is None ==> s.after_inbound(
            store,
            frame,
            now,
            entropy,
        ).0 == s,
{
}

/// A session moves to `Errored` only from a handshake that failed while
/// authentication is required, and leaves it only by a reset.
pub proof fn errored_comes_from_failed_handshake(s: SessionView, event: Event)
    ensures
        s.phase != Phase::Errored && after_event(s, event).0.phase == Phase::Errored ==> s.require_auth
            && s.phase != Phase::Established && after_event(s, event).1.fault == Some(
            ProtocolFault::BadAuthentication,
        ),
        s.phase == Phase::Errored && after_event(s, event).0.phase != Phase::Errored ==> discards_counters(
            s,
            event,
        ),
{
}

/// A hello that was answered is answered again with the same key message,
/// and nothing is derived anew: the session stays exactly as it was.
pub proof fn answered_hello_is_answered_again(
    s: SessionView,
    store: Seq<EntryView>,
    hello: Seq<u8>,
    now: u64,
    entropy: Option<Seq<u8>>,
    later_store: Seq<EntryView>,
    later: u64,
    later_entropy: Option<Seq<u8>>,
)
    requires
        hello.len() >= 1,
        hello[0] == KIND_HELLO,
        s.after_inbound(store, hello, now, entropy).1.handshake is Some,
        s.after_inbound(store, hello, now, entropy).0.phase == Phase::SentKey,
    ensures
        ({
            let (t, first) = s.after_inbound(store, hello, now, entropy);
            let (u, second) = t.after_inbound(later_store, hello, later, later_entropy);
            &&& u == t
            &&& second.handshake == first.handshake
            &&& second.plaintext is None
            &&& second.ciphertext is None
        }),
{
    let (t, first) = s.after_inbound(store, hello, now, entropy);
    assert(hello.len() == HELLO_LEN);
    assert(t.answered_hello == Some(hello));
    assert(t.sent_handshake == first.handshake);
}

} // verus!
