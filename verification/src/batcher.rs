//! The batcher: the states that the pipeline passes through between one
//! observation and the next, and what it does at each of them.
//!
//! The batcher neither waits nor sends. Each of its states says what its
//! driver has to do next, and takes what came of it: an observation, a
//! reading of the clocks after a sleep, or the result of a call.

use crate::buffer::{distinct_keys, merged, MergeBuffer};
use crate::cached::CachedDate;
use crate::client::{
    create_time_series_request, project_name, too_many_series, Error, Options, TimeSeries,
    MAX_TIME_SERIES_PER_REQUEST,
};
use crate::google_monitoring_v3;
use crate::scheduler::{floor_reached, flush_due, is_floor_reached, is_flush_due};
use crate::sender::{judge, verdict_of, Verdict};
use crate::time::{time_between, Moment, Reading};
use vstd::prelude::*;
use vstd::string::StringExecFns;

verus! {

/// The counters at the end of a flush, from which its driver reports the
/// success rate and the throughput.
#[derive(Debug, Clone)]
pub struct FlushOutcome {
    /// The batches that have arrived so far.
    pub successes: usize,
    /// The batches that were given up so far.
    pub failures: usize,
    /// The observations that were taken in so far.
    pub total_metrics: usize,
    /// The time since the batcher was started, in nanoseconds.
    pub elapsed: u128,
    /// Why this batch was given up, if it was.
    pub error: Option<Error>,
}

/// The share of the batches that have arrived among those that have ended,
/// in hundredths of a percent and rounded to the nearest, halves upwards;
/// the whole where none has ended yet.
pub open spec fn success_rate_of(successes: nat, failures: nat) -> nat {
    if successes + failures == 0 {
        10_000
    } else {
        (successes * 10_000 + (successes + failures) / 2) / (successes + failures)
    }
}

/// The observations taken in per second of `elapsed` nanoseconds, in
/// hundredths and rounded to the nearest, halves upwards.
pub open spec fn throughput_of(total_metrics: nat, elapsed: nat) -> nat
    recommends
        elapsed > 0,
{
    (total_metrics * 100_000_000_000 + elapsed / 2) / elapsed
}

impl FlushOutcome {
    /// The success rate over the life of the batcher, in hundredths of a
    /// percent: 10,000 where every batch has arrived, or none has ended yet.
    pub fn success_rate(&self) -> (rate: u128)
        ensures
            rate == success_rate_of(self.successes as nat, self.failures as nat),
            rate <= 10_000,
    {
        let successes = self.successes as u128;
        let total = successes + self.failures as u128;
        if total == 0 {
            10_000
        } else {
            assert(successes * 10_000 <= 0xffff_ffff_ffff_ffff * 10_000) by (nonlinear_arith)
                requires
                    successes <= 0xffff_ffff_ffff_ffff,
            ;
            assert(successes * 10_000 <= total * 10_000) by (nonlinear_arith)
                requires
                    successes <= total,
            ;
            let scaled = successes * 10_000 + total / 2;
            assert(scaled / total <= 10_000) by (nonlinear_arith)
                requires
                    scaled <= total * 10_000 + total / 2,
                    total > 0,
            ;
            scaled / total
        }
    }

    /// The observations taken in per second since the batcher was started,
    /// in hundredths; nothing where no time has passed.
    pub fn throughput(&self) -> (rate: Option<u128>)
        ensures
            self.elapsed == 0 ==> rate is None,
            self.elapsed > 0 ==> rate == Some(
                throughput_of(self.total_metrics as nat, self.elapsed as nat) as u128,
            ),
    {
        if self.elapsed == 0 {
            None
        } else {
            let total = self.total_metrics as u128;
            assert(total * 100_000_000_000 <= 0xffff_ffff_ffff_ffff * 100_000_000_000)
                by (nonlinear_arith)
                requires
                    total <= 0xffff_ffff_ffff_ffff,
            ;
            Some((total * 100_000_000_000 + self.elapsed / 2) / self.elapsed)
        }
    }
}

/// What a batcher holds, whatever state it is in.
pub struct State {
    /// The project that the batches are written to.
    pub project: Seq<char>,
    /// The options that the batcher was started with.
    pub options: Options,
    /// The entries of the merge buffer.
    pub buffer: Seq<TimeSeries>,
    /// The start time of cumulative series.
    pub epoch: Moment,
    /// The monotonic reading at which that start time was taken.
    pub epoch_taken_at: u128,
    /// The monotonic reading at which the last batch arrived; before the
    /// first one, that at which the batcher was started.
    pub last_flush: u128,
    /// The monotonic reading at which the batcher was started.
    pub started: u128,
    /// The observations that were taken in so far.
    pub total_metrics: usize,
    /// The batches that have arrived so far.
    pub successes: usize,
    /// The batches that were given up so far.
    pub failures: usize,
}

/// The counter `n` after one more was counted; a counter stays at the
/// largest number it can hold.
pub open spec fn bump(n: usize) -> usize {
    if n < usize::MAX {
        (n + 1) as usize
    } else {
        n
    }
}

/// Whether a buffer of `len` entries is one that a flush may find: it is
/// not empty, and it holds no more than a batch. Where the batch size is
/// zero, it holds the one entry that made the flush due.
pub open spec fn flushable(len: nat, batch_size: nat) -> bool {
    1 <= len && (len <= batch_size || len == 1)
}

/// Flush sizes. Where batches hold at least one entry, a buffer that a flush
/// may find is not empty and holds no more than a batch.
pub proof fn law_flushes_hold_at_most_a_batch(len: nat, batch_size: nat)
    requires
        flushable(len, batch_size),
        batch_size >= 1,
    ensures
        1 <= len <= batch_size,
{
}

/// Whether `batch` holds the records of `entries`, in their order, with
/// `epoch` as the start time of cumulative series.
pub open spec fn is_batch_of(
    batch: Seq<google_monitoring_v3::TimeSeries>,
    entries: Seq<TimeSeries>,
    epoch: Moment,
) -> bool {
    &&& batch.len() == entries.len()
    &&& forall|i: int|
        0 <= i < entries.len() ==> (#[trigger] entries[i]).is_encoded_as(batch[i], epoch)
}

impl State {
    /// The time since the last flush at the reading `now`.
    pub open spec fn since_flush(self, now: Reading) -> nat {
        time_between(self.last_flush, now.monotonic) as nat
    }

    /// Whether a flush is due at the reading `now`.
    pub open spec fn due(self, now: Reading) -> bool {
        flush_due(
            self.buffer.len(),
            self.options.batch_size as nat,
            self.since_flush(now),
            self.options.period as nat,
        )
    }

    /// Whether a flush may go out at the reading `now`.
    pub open spec fn clear_to_send(self, now: Reading) -> bool {
        floor_reached(self.since_flush(now), self.options.period as nat)
    }

    /// The start time of cumulative series in a batch that goes out at the
    /// reading `now`: taken anew where it is 25 hours old or older.
    pub open spec fn epoch_at(self, now: Reading) -> (Moment, u128) {
        if time_between(self.epoch_taken_at, now.monotonic) >= crate::cached::DURATION_25_HOURS {
            (now.wall, now.monotonic)
        } else {
            (self.epoch, self.epoch_taken_at)
        }
    }

    /// This state after its buffer was drained for a batch at the reading
    /// `now`.
    pub open spec fn drained(self, now: Reading) -> State {
        State {
            buffer: Seq::empty(),
            epoch: self.epoch_at(now).0,
            epoch_taken_at: self.epoch_at(now).1,
            ..self
        }
    }

    /// The counters of this state as they are reported at the reading `now`.
    pub open spec fn reports(self, outcome: FlushOutcome, now: Reading) -> bool {
        &&& outcome.successes == self.successes
        &&& outcome.failures == self.failures
        &&& outcome.total_metrics == self.total_metrics
        &&& outcome.elapsed == time_between(self.started, now.monotonic)
    }
}

/// The states that hold a batch on its way out.
pub struct InFlight {
    /// What the batcher holds.
    pub state: State,
    /// The request that carries the batch.
    pub request: google_monitoring_v3::CreateTimeSeriesRequest,
    /// The number of the attempt that is being made, counted from one.
    pub attempts: usize,
}

struct Core {
    project: String,
    options: Options,
    buffer: MergeBuffer,
    cached_date: CachedDate,
    last_time: u128,
    started: u128,
    total_metrics: usize,
    successes: usize,
    failures: usize,
}

impl Core {
    closed spec fn state(self) -> State {
        State {
            project: self.project@,
            options: self.options,
            buffer: self.buffer@,
            epoch: self.cached_date.epoch(),
            epoch_taken_at: self.cached_date.taken_at(),
            last_flush: self.last_time,
            started: self.started,
            total_metrics: self.total_metrics,
            successes: self.successes,
            failures: self.failures,
        }
    }

    fn outcome(&self, error: Option<Error>, now: Reading) -> (outcome: FlushOutcome)
        ensures
            self.state().reports(outcome, now),
            outcome.error == error,
    {
        FlushOutcome {
            successes: self.successes,
            failures: self.failures,
            total_metrics: self.total_metrics,
            elapsed: if now.monotonic >= self.started {
                now.monotonic - self.started
            } else {
                0
            },
            error,
        }
    }
}

/// Counts one more on a counter that stays at the largest number it can
/// hold.
fn count(n: usize) -> (m: usize)
    ensures
        m == bump(n),
{
    if n < usize::MAX {
        n + 1
    } else {
        n
    }
}

/// A batcher that is ready for the next observation.
pub struct Batcher {
    core: Core,
}

/// A batcher that has taken an observation in and has not yet looked at the
/// clock.
pub struct Observed {
    core: Core,
}

/// A batcher whose flush is due and has to wait until a period has passed
/// since the last one. Its driver sleeps for
/// [`WAIT_STEP`](crate::scheduler::WAIT_STEP) and reads the clocks again.
pub struct Waiting {
    core: Core,
}

/// A batcher whose batch is to be sent now. Its driver sends the request
/// and hands in the result.
pub struct Sending {
    core: Core,
    request: google_monitoring_v3::CreateTimeSeriesRequest,
    attempts: usize,
}

/// A batcher whose batch is to be sent once more. Its driver sleeps for
/// [`RETRY_DELAY`](crate::sender::RETRY_DELAY) first.
pub struct Backoff {
    core: Core,
    request: google_monitoring_v3::CreateTimeSeriesRequest,
    attempts: usize,
}

/// What a batcher does next.
pub enum Step {
    /// Nothing is due: wait for the next observation.
    Next(Batcher),
    /// A flush is due and has to wait: sleep, then read the clocks again.
    Wait(Waiting),
    /// A batch is to be sent: send it, then hand in the result.
    Send(Sending),
    /// The batch is to be sent once more: sleep, then send it again.
    Retry(Backoff),
    /// The flush has ended: report its outcome, then wait for the next
    /// observation.
    Report(Batcher, FlushOutcome),
}

/// Whether `step` is what a flush of a batcher in the state `state` comes to
/// at the reading `now`.
///
/// The buffer is drained and its entries are encoded in their order, with a
/// start time for cumulative series that is taken anew where it has become
/// too old. A batch of more than 200 records is given up at once, as an
/// invalid argument; any other is to be sent, as the first attempt.
pub open spec fn is_flush(state: State, now: Reading, step: Step) -> bool {
    if state.buffer.len() > MAX_TIME_SERIES_PER_REQUEST {
        &&& step matches Step::Report(batcher, outcome)
        &&& batcher@ == State { failures: bump(state.failures), ..state.drained(now) }
        &&& batcher@.reports(outcome, now)
        &&& outcome.error matches Some(Error::InvalidArgument(detail))
        &&& detail@ == too_many_series(state.buffer.len())
    } else {
        &&& step matches Step::Send(sending)
        &&& sending@.state == state.drained(now)
        &&& sending@.attempts == 1
        &&& sending@.request.name@ == project_name(state.project)
        &&& is_batch_of(sending@.request.time_series@, state.buffer, state.drained(now).epoch)
    }
}

impl View for Batcher {
    type V = State;

    closed spec fn view(&self) -> State {
        self.core.state()
    }
}

impl View for Observed {
    type V = State;

    closed spec fn view(&self) -> State {
        self.core.state()
    }
}

impl View for Waiting {
    type V = State;

    closed spec fn view(&self) -> State {
        self.core.state()
    }
}

impl View for Sending {
    type V = InFlight;

    closed spec fn view(&self) -> InFlight {
        InFlight { state: self.core.state(), request: self.request, attempts: self.attempts }
    }
}

impl View for Backoff {
    type V = InFlight;

    closed spec fn view(&self) -> InFlight {
        InFlight { state: self.core.state(), request: self.request, attempts: self.attempts }
    }
}

/// Drains the buffer of `core` and encodes its entries for a batch that goes
/// out at the reading `now`.
fn flush(core: Core, now: Reading) -> (step: Step)
    requires
        flushable(core.state().buffer.len(), core.options.batch_size as nat),
    ensures
        is_flush(core.state(), now, step),
        step matches Step::Send(sending) ==> flushable(
            sending@.request.time_series@.len(),
            core.options.batch_size as nat,
        ),
{
    let ghost before = core.state();
    let mut core = core;
    let entries = core.buffer.drain();
    let ghost drained = entries@;
    let mut batch: Vec<google_monitoring_v3::TimeSeries> = Vec::new();
    let mut cached_date = core.cached_date;
    let ghost epoch = before.drained(now).epoch;
    let ghost taken = before.drained(now).epoch_taken_at;
    for series in it: entries.into_iter()
        invariant
            it.seq() == drained,
            batch@.len() == it.index(),
            forall|i: int|
                0 <= i < it.index() ==> (#[trigger] drained[i]).is_encoded_as(batch@[i], epoch),
            it.index() == 0 ==> cached_date.epoch() == before.epoch && cached_date.taken_at()
                == before.epoch_taken_at,
            it.index() > 0 ==> cached_date.epoch() == epoch && cached_date.taken_at() == taken,
            epoch == before.drained(now).epoch,
            taken == before.drained(now).epoch_taken_at,
    {
        let record = series.as_wire_record(&mut cached_date, now);
        batch.push(record);
    }
    core.cached_date = cached_date;
    assert(core.state().buffer =~= Seq::empty());
    assert(core.state() == before.drained(now));
    match create_time_series_request(core.project.as_str(), batch) {
        Ok(request) => Step::Send(Sending { core, request, attempts: 1 }),
        Err(error) => {
            core.failures = count(core.failures);
            let outcome = core.outcome(Some(error), now);
            Step::Report(Batcher { core }, outcome)
        },
    }
}

impl Batcher {
    #[verifier::type_invariant]
    spec fn inv(self) -> bool {
        self.core.buffer@.len() == 0 || self.core.buffer@.len() < self.core.options.batch_size
    }

    /// A batcher that writes to the project `project_id`, started at the
    /// reading `now`: nothing is buffered or counted, and the start time of
    /// cumulative series and the time of the last flush are those of `now`.
    pub fn new(project_id: &str, options: Options, now: Reading) -> (batcher: Self)
        ensures
            batcher@ == (State {
                project: project_id@,
                options,
                buffer: Seq::empty(),
                epoch: now.wall,
                epoch_taken_at: now.monotonic,
                last_flush: now.monotonic,
                started: now.monotonic,
                total_metrics: 0,
                successes: 0,
                failures: 0,
            }),
    {
        let buffer = MergeBuffer::new();
        assert(buffer@ =~= Seq::empty());
        Batcher {
            core: Core {
                project: String::from_str(project_id),
                options,
                buffer,
                cached_date: CachedDate::new(now),
                last_time: now.monotonic,
                started: now.monotonic,
                total_metrics: 0,
                successes: 0,
                failures: 0,
            },
        }
    }

    /// The number of entries in the buffer.
    pub fn buffered(&self) -> (n: usize)
        ensures
            n == self@.buffer.len(),
            n == 0 || n < self@.options.batch_size,
    {
        proof {
            use_type_invariant(self);
        }
        self.core.buffer.len()
    }

    /// The observations that were taken in so far.
    pub fn total_metrics(&self) -> (n: usize)
        ensures
            n == self@.total_metrics,
    {
        self.core.total_metrics
    }

    /// The batches that have arrived so far.
    pub fn successes(&self) -> (n: usize)
        ensures
            n == self@.successes,
    {
        self.core.successes
    }

    /// The batches that were given up so far.
    pub fn failures(&self) -> (n: usize)
        ensures
            n == self@.failures,
    {
        self.core.failures
    }

    /// Takes one observation in: counts it, and merges it into the buffer,
    /// taking sums with `sum`.
    pub fn observe<F: Fn(u64, u64) -> u64>(self, series: TimeSeries, sum: &F) -> (observed:
        Observed)
        requires
            forall|a: u64, b: u64| call_requires(*sum, (a, b)),
        ensures
            merged(sum, self@.buffer, series, observed@.buffer),
            distinct_keys(self@.buffer),
            distinct_keys(observed@.buffer),
            observed@ == (State {
                buffer: observed@.buffer,
                total_metrics: bump(self@.total_metrics),
                ..self@
            }),
            flushable(observed@.buffer.len(), self@.options.batch_size as nat),
    {
        proof {
            use_type_invariant(&self);
        }
        let mut core = self.core;
        core.total_metrics = count(core.total_metrics);
        core.buffer.ingest(series, sum);
        Observed { core }
    }
}

impl Observed {
    #[verifier::type_invariant]
    spec fn inv(self) -> bool {
        flushable(self.core.buffer@.len(), self.core.options.batch_size as nat)
    }

    /// Decides at the reading `now` what follows the observation: the next
    /// observation while no flush is due, a wait while a flush that is due
    /// would follow the last one too closely, else the flush.
    pub fn schedule(self, now: Reading) -> (step: Step)
        ensures
            !self@.due(now) ==> (step matches Step::Next(batcher) && batcher@ == self@),
            self@.due(now) && !self@.clear_to_send(now) ==> (step matches Step::Wait(waiting)
                && waiting@ == self@),
            self@.due(now) && self@.clear_to_send(now) ==> is_flush(self@, now, step),
            step matches Step::Send(sending) ==> flushable(
                sending@.request.time_series@.len(),
                self@.options.batch_size as nat,
            ),
            step is Send ==> self@.clear_to_send(now),
    {
        proof {
            use_type_invariant(&self);
        }
        let core = self.core;
        let elapsed = if now.monotonic >= core.last_time {
            now.monotonic - core.last_time
        } else {
            0
        };
        if !is_flush_due(core.buffer.len(), core.options.batch_size, elapsed, core.options.period) {
            Step::Next(Batcher { core })
        } else if !is_floor_reached(elapsed, core.options.period) {
            Step::Wait(Waiting { core })
        } else {
            flush(core, now)
        }
    }
}

impl Waiting {
    #[verifier::type_invariant]
    spec fn inv(self) -> bool {
        flushable(self.core.buffer@.len(), self.core.options.batch_size as nat)
    }

    /// Decides at the reading `now`, after a sleep, whether the flush goes
    /// out: it does once a period has passed since the last one, and waits
    /// on until then.
    pub fn woke(self, now: Reading) -> (step: Step)
        ensures
            !self@.clear_to_send(now) ==> (step matches Step::Wait(waiting) && waiting@
                == self@),
            self@.clear_to_send(now) ==> is_flush(self@, now, step),
            step matches Step::Send(sending) ==> flushable(
                sending@.request.time_series@.len(),
                self@.options.batch_size as nat,
            ),
            step is Send ==> self@.clear_to_send(now),
    {
        proof {
            use_type_invariant(&self);
        }
        let core = self.core;
        let elapsed = if now.monotonic >= core.last_time {
            now.monotonic - core.last_time
        } else {
            0
        };
        if !is_floor_reached(elapsed, core.options.period) {
            Step::Wait(Waiting { core })
        } else {
            flush(core, now)
        }
    }
}

impl Sending {
    #[verifier::type_invariant]
    spec fn inv(self) -> bool {
        &&& self.core.buffer@.len() == 0
        &&& 1 <= self.attempts
        &&& 1 <= self.request.time_series@.len() <= MAX_TIME_SERIES_PER_REQUEST
    }

    /// The request that is to be sent.
    pub fn request(&self) -> (request: &google_monitoring_v3::CreateTimeSeriesRequest)
        ensures
            *request == self@.request,
            1 <= request.time_series@.len() <= MAX_TIME_SERIES_PER_REQUEST,
            self@.state.buffer.len() == 0,
    {
        proof {
            use_type_invariant(self);
        }
        &self.request
    }

    /// The number of the attempt that is being made, counted from one.
    pub fn attempts(&self) -> (attempts: usize)
        ensures
            attempts == self@.attempts,
            attempts >= 1,
    {
        proof {
            use_type_invariant(self);
        }
        self.attempts
    }

    /// Takes the result of the attempt in, at the reading `now`.
    ///
    /// A batch that has arrived is counted as a success, and the time of the
    /// last flush becomes that of `now`. A batch that failed with a
    /// transient error is sent again, unless this was the last attempt that
    /// the options allow. Any other is counted as a failure and dropped.
    pub fn sent(self, result: Result<(), Error>, now: Reading) -> (step: Step)
        ensures
            match verdict_of(result, self@.attempts as nat, self@.state.options.retries as nat) {
                Verdict::Delivered => {
                    &&& step matches Step::Report(batcher, outcome)
                    &&& batcher@ == State {
                        successes: bump(self@.state.successes),
                        last_flush: now.monotonic,
                        ..self@.state
                    }
                    &&& batcher@.reports(outcome, now)
                    &&& outcome.error is None
                },
                Verdict::Retry => {
                    &&& step matches Step::Retry(backoff)
                    &&& backoff@ == InFlight {
                        attempts: (self@.attempts + 1) as usize,
                        ..self@
                    }
                },
                Verdict::Failed => {
                    &&& step matches Step::Report(batcher, outcome)
                    &&& batcher@ == State {
                        failures: bump(self@.state.failures),
                        ..self@.state
                    }
                    &&& batcher@.reports(outcome, now)
                    &&& result matches Err(error) && outcome.error == Some(error)
                },
            },
    {
        proof {
            use_type_invariant(&self);
        }
        let mut core = self.core;
        match judge(&result, self.attempts, core.options.retries) {
            Verdict::Delivered => {
                core.successes = count(core.successes);
                core.last_time = now.monotonic;
                let outcome = core.outcome(None, now);
                Step::Report(Batcher { core }, outcome)
            },
            Verdict::Retry => Step::Retry(
                Backoff { core, request: self.request, attempts: self.attempts + 1 },
            ),
            Verdict::Failed => {
                core.failures = count(core.failures);
                let outcome = core.outcome(result.err(), now);
                Step::Report(Batcher { core }, outcome)
            },
        }
    }
}

impl Backoff {
    #[verifier::type_invariant]
    spec fn inv(self) -> bool {
        &&& self.core.buffer@.len() == 0
        &&& 1 <= self.attempts
        &&& 1 <= self.request.time_series@.len() <= MAX_TIME_SERIES_PER_REQUEST
    }

    /// After the sleep, the same batch is to be sent as the next attempt.
    pub fn woke(self) -> (sending: Sending)
        ensures
            sending@ == self@,
    {
        proof {
            use_type_invariant(&self);
        }
        Sending { core: self.core, request: self.request, attempts: self.attempts }
    }
}

} // verus!
