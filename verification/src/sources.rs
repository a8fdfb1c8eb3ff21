//! The two things a node injects into the engine: fresh random bytes and the
//! time. The engine asks for them through these traits and trusts neither:
//! whatever a source hands back is checked before it is used.
use vstd::prelude::*;
use crate::bytes::bytes_between;

verus! {

/// The randomness source could not supply the bytes asked for.
#[derive(Debug, Clone, Copy, PartialEq, Eq, Structural)]
pub struct RandomFailure;

/// A source of uniformly random bytes.
pub trait RandomSource {
    /// Hands out `len` fresh bytes, or fails.
    fn fill(&mut self, len: usize) -> (bytes: Result<Vec<u8>, RandomFailure>);
}

/// A source of the current time.
pub trait Clock {
    /// The time now, in milliseconds since an epoch of the clock's choosing.
    fn now_millis(&self) -> (now: u64);
}

/// A clock that shows the time it was last set to.
pub struct ManualClock {
    now: u64,
}

impl ManualClock {
    /// The time the clock shows.
    pub closed spec fn shown(&self) -> u64 {
        self.now
    }

    /// A clock that shows `now`.
    pub fn new(now: u64) -> (clock: ManualClock)
        ensures
            clock.shown() == now,
    {
        ManualClock { now }
    }

    /// Sets the clock to `now`.
    pub fn set(&mut self, now: u64)
        ensures
            final(self).shown() == now,
    {
        self.now = now;
    }

    /// Moves the clock forward by `by` milliseconds, as far as the range goes.
    pub fn advance(&mut self, by: u64)
        ensures
            final(self).shown() == if old(self).shown() + by > u64::MAX {
                u64::MAX
            } else {
                (old(self).shown() + by) as u64
            },
    {
        self.now = if by > u64::MAX - self.now {
            u64::MAX
        } else {
            self.now + by
        };
    }
}

impl Clock for ManualClock {
    fn now_millis(&self) -> (now: u64)
        ensures
            now == self.shown(),
    {
        self.now
    }
}

/// A randomness source that hands out a given byte string piece by piece, and
/// fails once too little of it is left.
pub struct FixedRandom {
    bytes: Vec<u8>,
    used: usize,
}

impl FixedRandom {
    #[verifier::type_invariant]
    spec fn in_range(self) -> bool {
        self.used <= self.bytes@.len()
    }

    /// The bytes not handed out yet.
    pub closed spec fn remaining(&self) -> Seq<u8> {
        self.bytes@.subrange(self.used as int, self.bytes@.len() as int)
    }

    /// A source that hands out `bytes`.
    pub fn new(bytes: Vec<u8>) -> (source: FixedRandom)
        ensures
            source.remaining() == bytes@,
    {
        let source = FixedRandom { bytes, used: 0 };
        assert(source.remaining() =~= bytes@);
        source
    }
}

impl RandomSource for FixedRandom {
    fn fill(&mut self, len: usize) -> (bytes: Result<Vec<u8>, RandomFailure>)
        ensures
            len <= old(self).remaining().len() ==> (bytes matches Ok(b)
                && b@ == old(self).remaining().subrange(0, len as int)
                && final(self).remaining() == old(self).remaining().subrange(
                len as int,
                old(self).remaining().len() as int,
            )),
            len > old(self).remaining().len() ==> bytes == Err::<Vec<u8>, RandomFailure>(RandomFailure)
                && final(self).remaining() == old(self).remaining(),
    {
        proof {
            use_type_invariant(&*self);
        }
        if len > self.bytes.len() - self.used {
            return Err(RandomFailure);
        }
        let out = bytes_between(self.bytes.as_slice(), self.used, self.used + len);
        assert(out@ =~= self.remaining().subrange(0, len as int));
        assert(self.bytes@.subrange(self.used + len, self.bytes@.len() as int) =~= self.remaining().subrange(
            len as int,
            self.remaining().len() as int,
        ));
        self.used = self.used + len;
        Ok(out)
    }
}

} // verus!
