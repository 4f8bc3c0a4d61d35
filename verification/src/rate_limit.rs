//! A fixed-window rate limiter.
//!
//! The limiter hands out at most `capacity` permits in each window. Windows
//! have the length `period` and follow one another from the instant at which
//! the limiter was made. A window is not left by the passing of time alone:
//! the first call that finds the window used up after its end opens the next
//! window, exactly one period later, and takes its first permit.
//!
//! Time is counted in whole nanoseconds. The limiter's own clock starts at 0
//! when the limiter is made and stops at `u64::MAX`, some 584 years later.
//! The functions that take no instant read the monotonic clock, from the
//! instant at which the limiter was made.

pub mod laws;

use vstd::prelude::*;
use vstd::arithmetic::div_mod::{lemma_mod_add_multiples_vanish, lemma_mod_self_0};
use std::time::Instant;
use crate::clock::{instant_now, nanos_since};

verus! {

/// The limiter's state as mathematics.
pub struct RateLimitView {
    /// The permits of one window.
    pub capacity: nat,
    /// The length of a window, in nanoseconds.
    pub period: nat,
    /// The permits taken in the present window.
    pub used: nat,
    /// The instant at which the limiter was made, in nanoseconds on the
    /// caller's clock.
    pub start: nat,
    /// The end of the present window, in nanoseconds after `start`.
    pub reset: nat,
}

impl RateLimitView {
    /// The fresh limiter made at `start`.
    pub open spec fn fresh(capacity: nat, period: nat, start: nat) -> RateLimitView {
        RateLimitView { capacity, period, used: 0, start, reset: period }
    }

    /// No window holds more permits than the capacity (than one, where the
    /// capacity is 0: the call that opens a window always takes a permit),
    /// and the windows' ends lie whole periods after the start.
    pub open spec fn wf(self) -> bool {
        &&& self.capacity <= u64::MAX
        &&& self.period <= u64::MAX
        &&& self.start <= u128::MAX
        &&& self.used <= self.capacity || self.used == 1
        &&& self.period <= self.reset <= u64::MAX + self.period
        &&& self.period > 0 ==> self.reset % self.period == 0
    }

    /// The reading of the limiter's own clock when the caller's clock reads
    /// `now`: the nanoseconds since `start`, 0 before `start`, and never
    /// more than `u64::MAX`.
    pub open spec fn elapsed(self, now: nat) -> nat {
        if now <= self.start {
            0
        } else if now - self.start > u64::MAX {
            u64::MAX as nat
        } else {
            (now - self.start) as nat
        }
    }

    /// Whether a call at `now` opens the next window: the present one is
    /// used up, and its end has passed.
    pub open spec fn advances(self, now: nat) -> bool {
        self.used >= self.capacity && self.elapsed(now) > self.reset
    }

    /// Whether a call at `now` gets a permit.
    pub open spec fn admits(self, now: nat) -> bool {
        self.used < self.capacity || self.advances(now)
    }

    /// The state after a call at `now`.
    pub open spec fn after(self, now: nat) -> RateLimitView {
        if self.used < self.capacity {
            RateLimitView { used: self.used + 1, ..self }
        } else if self.advances(now) {
            RateLimitView { used: 1, reset: self.reset + self.period, ..self }
        } else {
            self
        }
    }

    /// How long a caller that was refused at `now` is told to wait: until
    /// the end of the present window, and never more than `u64::MAX`.
    pub open spec fn wait(self, now: nat) -> nat {
        let left = self.reset - self.elapsed(now);
        if left <= 0 {
            0
        } else if left > u64::MAX {
            u64::MAX as nat
        } else {
            left as nat
        }
    }
}

/// What a caller that wants a permit is to do.
#[derive(Debug, Clone, Copy, PartialEq, Eq, Structural)]
pub enum Readiness {
    /// The caller holds a permit and may go on.
    Ready,
    /// No permit is to be had. The caller sleeps for so many nanoseconds,
    /// then asks again.
    Wait(u64),
}

/// A fixed-window rate limiter.
#[derive(Debug)]
pub struct RateLimit {
    capacity: u64,
    period: u64,
    used: u64,
    start: u128,
    reset: u128,
    epoch: Instant,
}

impl View for RateLimit {
    type V = RateLimitView;

    closed spec fn view(&self) -> RateLimitView {
        RateLimitView {
            capacity: self.capacity as nat,
            period: self.period as nat,
            used: self.used as nat,
            start: self.start as nat,
            reset: self.reset as nat,
        }
    }
}

impl RateLimit {
    #[verifier::type_invariant]
    spec fn inv(self) -> bool {
        self@.wf()
    }

    /// A limiter of `num` permits per window of `period` nanoseconds, whose
    /// first window starts at `now` on the caller's clock. Asked without an
    /// instant, the limiter counts on from `now` by the monotonic clock.
    pub fn new_at(num: u64, period: u64, now: u128) -> (limiter: RateLimit)
        ensures
            limiter@ == RateLimitView::fresh(num as nat, period as nat, now as nat),
            limiter@.wf(),
    {
        proof {
            if period > 0 {
                lemma_mod_self_0(period as int);
            }
        }
        RateLimit {
            capacity: num,
            period,
            used: 0,
            start: now,
            reset: period as u128,
            epoch: instant_now(),
        }
    }

    /// A limiter of `num` permits per window of `period` nanoseconds, whose
    /// first window starts now, at 0 on the limiter's clock.
    pub fn new(num: u64, period: u64) -> (limiter: RateLimit)
        ensures
            limiter@ == RateLimitView::fresh(num as nat, period as nat, 0),
            limiter@.wf(),
    {
        RateLimit::new_at(num, period, 0)
    }

    /// The present instant on the limiter's clock: the instant of its
    /// making, and the time that the monotonic clock has counted since.
    fn now(&self) -> (now: u128)
        ensures
            now >= self@.start,
    {
        let since = nanos_since(&self.epoch);
        if since > u128::MAX - self.start {
            u128::MAX
        } else {
            self.start + since
        }
    }

    /// The permits of one window.
    pub fn capacity(&self) -> (capacity: u64)
        ensures
            capacity == self@.capacity,
    {
        self.capacity
    }

    /// The length of a window, in nanoseconds.
    pub fn period(&self) -> (period: u64)
        ensures
            period == self@.period,
    {
        self.period
    }

    /// The permits taken in the present window.
    pub fn used(&self) -> (used: u64)
        ensures
            used == self@.used,
    {
        self.used
    }

    /// The reading of the limiter's own clock when the caller's clock reads
    /// `now`.
    pub fn elapsed_at(&self, now: u128) -> (elapsed: u64)
        ensures
            elapsed == self@.elapsed(now as nat),
    {
        if now <= self.start {
            0
        } else {
            let since: u128 = now - self.start;
            if since > u64::MAX as u128 {
                u64::MAX
            } else {
                since as u64
            }
        }
    }

    /// Takes a permit if one is to be had at `now`, and says whether it did.
    /// It never blocks.
    pub fn try_ready_at(&mut self, now: u128) -> (granted: bool)
        ensures
            granted == old(self)@.admits(now as nat),
            final(self)@ == old(self)@.after(now as nat),
            final(self)@.wf(),
    {
        proof {
            use_type_invariant(&*self);
        }
        if self.used < self.capacity {
            self.used = self.used + 1;
            true
        } else {
            let elapsed = self.elapsed_at(now);
            if elapsed as u128 > self.reset {
                proof {
                    if self.period > 0 {
                        lemma_mod_add_multiples_vanish(self.reset as int, self.period as int);
                    }
                }
                *self = RateLimit {
                    capacity: self.capacity,
                    period: self.period,
                    used: 1,
                    start: self.start,
                    reset: self.reset + self.period as u128,
                    epoch: self.epoch,
                };
                true
            } else {
                false
            }
        }
    }

    /// Takes a permit if one is to be had now, and says whether it did. It
    /// never blocks. The monotonic clock is read once, and the call does what
    /// `try_ready_at` does at that reading, which is never before the start.
    pub fn try_ready(&mut self) -> (granted: bool)
        ensures
            exists|now: nat|
                {
                    &&& now >= old(self)@.start
                    &&& granted == old(self)@.admits(now)
                    &&& final(self)@ == #[trigger] old(self)@.after(now)
                },
            final(self)@.wf(),
    {
        let now = self.now();
        let granted = self.try_ready_at(now);
        assert(final(self)@ == old(self)@.after(now as nat));
        granted
    }

    /// One round of waiting for a permit: takes one if `try_ready_at` would,
    /// and else says how long to sleep before the next round. A caller that
    /// repeats this until it reads `Ready` has done what a blocking acquire
    /// does.
    pub fn poll_ready_at(&mut self, now: u128) -> (readiness: Readiness)
        ensures
            final(self)@ == old(self)@.after(now as nat),
            final(self)@.wf(),
            old(self)@.admits(now as nat) ==> readiness == Readiness::Ready,
            !old(self)@.admits(now as nat) ==> readiness == Readiness::Wait(
                old(self)@.wait(now as nat) as u64,
            ),
    {
        if self.try_ready_at(now) {
            Readiness::Ready
        } else {
            let elapsed = self.elapsed_at(now);
            let left: u128 = self.reset - elapsed as u128;
            if left > u64::MAX as u128 {
                Readiness::Wait(u64::MAX)
            } else {
                Readiness::Wait(left as u64)
            }
        }
    }

    /// One round of waiting for a permit, at the present reading of the
    /// monotonic clock, which is never before the start.
    pub fn poll_ready(&mut self) -> (readiness: Readiness)
        ensures
            exists|now: nat|
                {
                    &&& now >= old(self)@.start
                    &&& final(self)@ == #[trigger] old(self)@.after(now)
                    &&& old(self)@.admits(now) ==> readiness == Readiness::Ready
                    &&& !old(self)@.admits(now) ==> readiness == Readiness::Wait(
                        old(self)@.wait(now) as u64,
                    )
                },
            final(self)@.wf(),
    {
        let now = self.now();
        let readiness = self.poll_ready_at(now);
        assert(final(self)@ == old(self)@.after(now as nat));
        readiness
    }
}

} // verus!
