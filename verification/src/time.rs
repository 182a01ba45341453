//! Points in time and clock readings, held as plain integers.

use vstd::prelude::*;

verus! {

/// `prost_types::Timestamp`, the timestamp of the wire format: a struct of
/// two public fields, seconds and nanoseconds.
#[verifier::external_type_specification]
pub struct ExTimestamp(prost_types::Timestamp);

/// `std::time::Instant`, a reading of the monotonic clock, of which nothing
/// is known here.
#[verifier::external_type_specification]
#[verifier::external_body]
pub struct ExInstant(std::time::Instant);

/// The nanoseconds since the last second boundary stay below this number:
/// they pass 999,999,999 within a leap second only, and never reach two
/// seconds.
pub const SUBSEC_NANOS_LIMIT: u32 = 2_000_000_000;

/// A point on the UTC time line: whole seconds since the Unix epoch, and the
/// nanoseconds since the last second boundary (which pass 999,999,999 within
/// a leap second).
#[derive(Clone, Copy, Debug)]
pub struct Moment {
    seconds: i64,
    subsec_nanos: u32,
}

impl Moment {
    #[verifier::type_invariant]
    spec fn inv(self) -> bool {
        self.subsec_nanos < SUBSEC_NANOS_LIMIT
    }

    /// Whole seconds since the Unix epoch.
    pub closed spec fn seconds(self) -> i64 {
        self.seconds
    }

    /// Nanoseconds since the last second boundary.
    pub closed spec fn subsec_nanos(self) -> u32 {
        self.subsec_nanos
    }

    /// The moment `subsec_nanos` nanoseconds after `seconds` seconds since the
    /// Unix epoch, if the nanoseconds are fewer than those of two seconds.
    pub fn new(seconds: i64, subsec_nanos: u32) -> (moment: Option<Moment>)
        ensures
            moment is Some <==> subsec_nanos < SUBSEC_NANOS_LIMIT,
            moment matches Some(m) ==> m.seconds() == seconds && m.subsec_nanos() == subsec_nanos,
    {
        if subsec_nanos < SUBSEC_NANOS_LIMIT {
            Some(Moment { seconds, subsec_nanos })
        } else {
            None
        }
    }

    /// Whole seconds since the Unix epoch.
    pub fn timestamp(&self) -> (seconds: i64)
        ensures
            seconds == self.seconds(),
    {
        self.seconds
    }

    /// Nanoseconds since the last second boundary.
    pub fn timestamp_subsec_nanos(&self) -> (nanos: u32)
        ensures
            nanos == self.subsec_nanos(),
            nanos < SUBSEC_NANOS_LIMIT,
    {
        proof {
            use_type_invariant(self);
        }
        self.subsec_nanos
    }
}

/// The time that lies between two readings of a clock that never runs
/// backwards; nothing where the later reading is the smaller.
pub open spec fn time_between(earlier: u128, later: u128) -> u128 {
    if later >= earlier {
        (later - earlier) as u128
    } else {
        0
    }
}

/// What the two clocks show at one instant.
#[derive(Clone, Copy, Debug)]
pub struct Reading {
    /// Nanoseconds that have passed on a clock that never runs backwards,
    /// counted from where its owner started it.
    pub monotonic: u128,
    /// The time of day on the UTC time line.
    pub wall: Moment,
}

/// The wire timestamp of a moment: the same instant, as its whole seconds
/// since the Unix epoch and its nanoseconds since the last second boundary.
pub open spec fn timestamp_of(moment: Moment) -> prost_types::Timestamp {
    prost_types::Timestamp {
        seconds: moment.seconds(),
        nanos: moment.subsec_nanos() as i32,
    }
}

/// Converts a moment to its wire timestamp. The nanoseconds of the
/// timestamp are those of the moment, and so lie between 0 and 999,999,999,
/// except within a leap second.
pub fn to_timestamp(datetime: Moment) -> (timestamp: prost_types::Timestamp)
    ensures
        timestamp == timestamp_of(datetime),
        timestamp.seconds == datetime.seconds(),
        timestamp.nanos == datetime.subsec_nanos(),
        0 <= timestamp.nanos < SUBSEC_NANOS_LIMIT,
{
    let nanos = datetime.timestamp_subsec_nanos();
    prost_types::Timestamp { seconds: datetime.timestamp(), nanos: nanos as i32 }
}

/// The instant that `std::time::Instant::now` reads from the monotonic
/// clock.
#[verifier::external_body]
fn instant_now() -> (now: std::time::Instant)
{
    std::time::Instant::now()
}

/// The time that `std::time::Instant::elapsed` measures since `origin`.
#[verifier::external_body]
fn elapsed_since(origin: &std::time::Instant) -> (elapsed: std::time::Duration)
{
    origin.elapsed()
}

/// The whole nanoseconds that `std::time::Duration::as_nanos` counts in
/// `span`.
#[verifier::external_body]
fn whole_nanos(span: &std::time::Duration) -> (nanos: u128)
{
    span.as_nanos()
}

/// A clock that counts the nanoseconds since the instant at which it was
/// started, and never runs backwards: it keeps its last reading, and gives
/// no reading below it.
#[derive(Debug)]
pub struct Stopwatch {
    origin: std::time::Instant,
    last: u128,
}

impl Stopwatch {
    /// A clock that starts to count now, from zero.
    pub fn start() -> (watch: Self)
        ensures
            watch.last_reading() == 0,
    {
        Stopwatch { origin: instant_now(), last: 0 }
    }

    /// The nanoseconds that have passed since the clock was started: what
    /// the monotonic clock measures, and the last reading where that is
    /// less. The result is the last reading from now on.
    pub fn elapsed(&mut self) -> (nanos: u128)
        ensures
            nanos >= old(self).last_reading(),
            final(self).last_reading() == nanos,
    {
        let span = elapsed_since(&self.origin);
        let measured = whole_nanos(&span);
        if measured > self.last {
            self.last = measured;
        }
        self.last
    }

    /// What the clocks show now, where the driver has read `wall` as the
    /// time of day: the nanoseconds that have passed on this clock, which
    /// are its last reading from now on, together with `wall`.
    pub fn read(&mut self, wall: Moment) -> (reading: Reading)
        ensures
            reading.wall == wall,
            reading.monotonic == final(self).last_reading(),
            final(self).last_reading() >= old(self).last_reading(),
    {
        let monotonic = self.elapsed();
        Reading { monotonic, wall }
    }

    /// The last reading of this clock; zero before the first.
    pub closed spec fn last_reading(self) -> u128 {
        self.last
    }
}

} // verus!
