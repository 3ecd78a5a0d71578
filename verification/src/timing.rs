//! Monotonic fire-control timing.  The engine never reads a clock itself:
//! the caller passes a monotonic timestamp in nanoseconds to every call
//! that needs one.

use vstd::prelude::*;

verus! {

/// A deadline on the caller's monotonic clock.
#[derive(Clone, Copy, Debug)]
pub struct Timer {
    endtime: u64,
}

impl Timer {
    /// The deadline, for contracts.
    pub closed spec fn end(self) -> u64 {
        self.endtime
    }

    /// A timer that is `done` once `ttl` nanoseconds have passed after `now`.
    pub fn new(now: u64, ttl: u64) -> (r: Timer)
        requires
            now + ttl <= u64::MAX,
        ensures
            r.end() == now + ttl,
    {
        Timer { endtime: now + ttl }
    }

    /// Whether the deadline has passed.
    pub fn done(self, now: u64) -> (r: bool)
        ensures
            r == (now > self.end()),
    {
        now > self.endtime
    }
}

/// Fire-control pacing: `try_fire` succeeds at most once per `cooldown`
/// nanoseconds, and each success restarts the cooldown.
#[derive(Clone, Copy, Debug)]
pub struct FireRate {
    nextshot: u64,
    cooldown: u64,
}

impl FireRate {
    /// The instant after which the next shot is allowed, for contracts.
    pub closed spec fn next_allowed(self) -> u64 {
        self.nextshot
    }

    /// The cooldown between shots, for contracts.
    pub closed spec fn interval(self) -> u64 {
        self.cooldown
    }

    /// Pacing that allows a first shot strictly after `now` and a repeat
    /// `cooldown` nanoseconds after each accepted `try_fire`.
    pub fn new(now: u64, cooldown: u64) -> (r: FireRate)
        ensures
            r.next_allowed() == now,
            r.interval() == cooldown,
    {
        FireRate { nextshot: now, cooldown }
    }

    /// Fire if the cooldown has lapsed; an accepted shot blocks further
    /// shots until `cooldown` nanoseconds past `now`.
    pub fn try_fire(&mut self, now: u64) -> (r: bool)
        requires
            now + old(self).interval() <= u64::MAX,
        ensures
            r == (now > old(self).next_allowed()),
            final(self).interval() == old(self).interval(),
            r ==> final(self).next_allowed() == now + old(self).interval(),
            !r ==> *final(self) == *old(self),
            !r ==> final(self).next_allowed() == old(self).next_allowed(),
    {
        if now > self.nextshot {
            self.nextshot = now + self.cooldown;
            true
        } else {
            false
        }
    }
}

/// Fire-rate gating: of two attempts less than one cooldown apart, at most
/// the first can succeed; the second is refused whenever the first was
/// accepted.
pub proof fn lemma_fire_rate_limit(pace0: FireRate, pace1: FireRate, t0: u64, t1: u64)
    requires
        t0 > pace0.next_allowed(),
        pace1.next_allowed() == t0 + pace0.interval(),
        pace1.interval() == pace0.interval(),
        t1 < t0 + pace0.interval(),
    ensures
        !(t1 > pace1.next_allowed()),
{
}

} // verus!
