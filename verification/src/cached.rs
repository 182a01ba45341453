//! The start time that cumulative series of the current batching window
//! report, kept no longer than the service accepts.

use crate::time::{time_between, Moment, Reading};
use vstd::prelude::*;

verus! {

/// The service accepts no start time that lies more than 25 hours in the
/// past: 25 hours, in nanoseconds.
pub const DURATION_25_HOURS: u128 = 90_000_000_000_000;

/// A wall-clock time together with the monotonic reading taken at the same
/// instant.
#[derive(Clone, Copy, Debug)]
pub struct CachedDate {
    time: Moment,
    clock: u128,
}

impl CachedDate {
    /// The wall-clock time that was cached.
    pub closed spec fn epoch(self) -> Moment {
        self.time
    }

    /// The monotonic reading at which it was cached.
    pub closed spec fn taken_at(self) -> u128 {
        self.clock
    }

    /// The age of the cached time at the monotonic reading `now`.
    pub open spec fn age(self, now: u128) -> u128 {
        time_between(self.taken_at(), now)
    }

    /// Whether the cached time is too old to be used at the monotonic
    /// reading `now`.
    pub open spec fn is_stale(self, now: u128) -> bool {
        self.age(now) >= DURATION_25_HOURS
    }

    /// What the cached time is when it is next used, at the reading `now`:
    /// taken anew where it has become stale.
    pub open spec fn refreshed(self, now: Reading) -> (Moment, u128) {
        if self.is_stale(now.monotonic) {
            (now.wall, now.monotonic)
        } else {
            (self.epoch(), self.taken_at())
        }
    }

    /// Caches the time that the clocks show.
    pub fn new(now: Reading) -> (cached: Self)
        ensures
            cached.epoch() == now.wall,
            cached.taken_at() == now.monotonic,
    {
        Self { time: now.wall, clock: now.monotonic }
    }

    /// The time since the cached time was last taken.
    pub fn elapsed(&self, now: u128) -> (age: u128)
        ensures
            age == self.age(now),
    {
        if now >= self.clock {
            now - self.clock
        } else {
            0
        }
    }

    /// Takes the cached time anew from what the clocks show.
    pub fn reset(&mut self, now: Reading)
        ensures
            final(self).epoch() == now.wall,
            final(self).taken_at() == now.monotonic,
    {
        self.time = now.wall;
        self.clock = now.monotonic;
    }

    /// The cached wall-clock time.
    pub fn time(&self) -> (time: Moment)
        ensures
            time == self.epoch(),
    {
        self.time
    }

    /// The cached time that may be used at the reading `now`: the cached time
    /// is first taken anew if it is 25 hours old or older.
    pub fn refresh(&mut self, now: Reading) -> (time: Moment)
        ensures
            (final(self).epoch(), final(self).taken_at()) == old(self).refreshed(now),
            time == final(self).epoch(),
    {
        if self.elapsed(now.monotonic) >= DURATION_25_HOURS {
            self.reset(now);
        }
        self.time()
    }
}

} // verus!
