//! The merge buffer: the latest or accumulated observation of each metric
//! type that has been seen since the last flush.

use crate::client::{MetricKind, Point, TimeSeries};
use vstd::prelude::*;

verus! {

/// The key under which an observation is merged: its metric type.
pub open spec fn key_of(series: TimeSeries) -> Seq<char> {
    series.metric.type_@
}

/// Whether no two of `entries` share a key.
pub open spec fn distinct_keys(entries: Seq<TimeSeries>) -> bool {
    forall|i: int, j: int|
        0 <= i < j < entries.len() ==> key_of(#[trigger] entries[i]) != key_of(
            #[trigger] entries[j],
        )
}

/// Whether one of `entries` has the key `key`.
pub open spec fn holds_key(entries: Seq<TimeSeries>, key: Seq<char>) -> bool {
    exists|i: int| 0 <= i < entries.len() && key_of(#[trigger] entries[i]) == key
}

/// The place of an entry of `entries` that has the key `key`, where there is
/// one.
pub open spec fn place_of(entries: Seq<TimeSeries>, key: Seq<char>) -> int {
    choose|i: int| 0 <= i < entries.len() && key_of(#[trigger] entries[i]) == key
}

/// The entry `entry` with `value` as its value, and nothing else changed.
pub open spec fn with_value(entry: TimeSeries, value: u64) -> TimeSeries {
    TimeSeries { points: Point { value, ..entry.points }, ..entry }
}

/// Whether `total` is what `sum` may return for the sum of `stored` and
/// `incoming`.
pub open spec fn sums_to<F: Fn(u64, u64) -> u64>(
    sum: &F,
    stored: u64,
    incoming: u64,
    total: u64,
) -> bool {
    call_ensures(*sum, (stored, incoming), total)
}

/// Whether merging the observation `series` into the entries `before` can
/// give the entries `after`, with sums taken by `sum`.
///
/// An observation under a new key becomes the last entry as it is. Under a
/// key that an entry holds, only that entry's value changes, by the rule of
/// the kind that the entry has: a cumulative entry takes the sum of its
/// value and the observed one, a gauge entry takes the observed value.
pub open spec fn merged<F: Fn(u64, u64) -> u64>(
    sum: &F,
    before: Seq<TimeSeries>,
    series: TimeSeries,
    after: Seq<TimeSeries>,
) -> bool {
    if holds_key(before, key_of(series)) {
        let i = place_of(before, key_of(series));
        &&& after == before.update(i, with_value(before[i], after[i].points.value))
        &&& match before[i].metric_kind {
            MetricKind::Cumulative => sums_to(
                sum,
                before[i].points.value,
                series.points.value,
                after[i].points.value,
            ),
            MetricKind::Gauge => after[i].points.value == series.points.value,
        }
    } else {
        after == before.push(series)
    }
}

/// The values of the observations `observed`, in their order.
pub open spec fn values_of(observed: Seq<TimeSeries>) -> Seq<u64> {
    Seq::new(observed.len(), |i: int| observed[i].points.value)
}

/// Whether `total` is what summing `values` from the first to the last can
/// give, with sums taken by `sum`: the only value where there is one, else
/// the sum of a total of all but the last value and the last value.
pub open spec fn is_total<F: Fn(u64, u64) -> u64>(sum: &F, values: Seq<u64>, total: u64) -> bool
    decreases values.len(),
{
    if values.len() == 0 {
        false
    } else if values.len() == 1 {
        total == values[0]
    } else {
        exists|partial: u64|
            is_total(sum, values.drop_last(), partial) && #[trigger] sums_to(
                sum,
                partial,
                values.last(),
                total,
            )
    }
}

/// Whether `states` are the entries of a buffer before, between and after
/// the merging of the observations `observed`, one after another.
pub open spec fn is_run<F: Fn(u64, u64) -> u64>(
    sum: &F,
    states: Seq<Seq<TimeSeries>>,
    observed: Seq<TimeSeries>,
) -> bool {
    &&& states.len() == observed.len() + 1
    &&& forall|k: int|
        0 <= k < observed.len() ==> merged(sum, #[trigger] states[k], observed[k], states[k + 1])
}

/// Among entries with distinct keys, an entry that has a key is the entry
/// at the place of that key.
pub proof fn lemma_place_is_unique(entries: Seq<TimeSeries>, key: Seq<char>, i: int)
    requires
        distinct_keys(entries),
        0 <= i < entries.len(),
        key_of(entries[i]) == key,
    ensures
        holds_key(entries, key),
        place_of(entries, key) == i,
{
    let p = place_of(entries, key);
    assert(0 <= p < entries.len() && key_of(entries[p]) == key);
    if p < i {
        assert(key_of(entries[p]) != key_of(entries[i]));
    } else if i < p {
        assert(key_of(entries[i]) != key_of(entries[p]));
    }
}

/// Merging keeps keys distinct, and leaves an entry under the observation's
/// key: the observation itself where the key is new, else the entry that was
/// there, with the kind it had.
pub proof fn lemma_merged_entry<F: Fn(u64, u64) -> u64>(
    sum: &F,
    before: Seq<TimeSeries>,
    series: TimeSeries,
    after: Seq<TimeSeries>,
)
    requires
        distinct_keys(before),
        merged(sum, before, series, after),
    ensures
        distinct_keys(after),
        holds_key(after, key_of(series)),
        !holds_key(before, key_of(series)) ==> after.len() == before.len() + 1 && after[place_of(
            after,
            key_of(series),
        )] == series,
        holds_key(before, key_of(series)) ==> after.len() == before.len() && place_of(
            after,
            key_of(series),
        ) == place_of(before, key_of(series)) && after[place_of(after, key_of(series))]
            == with_value(
            before[place_of(before, key_of(series))],
            after[place_of(after, key_of(series))].points.value,
        ),
{
    let key = key_of(series);
    if holds_key(before, key) {
        let i = place_of(before, key);
        assert(0 <= i < before.len() && key_of(before[i]) == key);
        assert forall|a: int, b: int| 0 <= a < b < after.len() implies key_of(
            #[trigger] after[a],
        ) != key_of(#[trigger] after[b]) by {
            assert(key_of(after[a]) == key_of(before[a]));
            assert(key_of(after[b]) == key_of(before[b]));
        }
        lemma_place_is_unique(after, key, i);
    } else {
        let n = before.len() as int;
        assert forall|a: int, b: int| 0 <= a < b < after.len() implies key_of(
            #[trigger] after[a],
        ) != key_of(#[trigger] after[b]) by {
            if b == n {
                assert(after[a] == before[a]);
                if key_of(before[a]) == key {
                    assert(holds_key(before, key));
                }
            } else {
                assert(after[a] == before[a]);
                assert(after[b] == before[b]);
            }
        }
        lemma_place_is_unique(after, key, n);
    }
}

/// The kind that rules the merging of observations under `key` into
/// `entries`, of which `first` is the first: the kind of the entry that has
/// the key, and where there is none, the kind of `first`.
pub open spec fn ruling_kind(entries: Seq<TimeSeries>, first: TimeSeries, key: Seq<char>)
    -> MetricKind {
    if holds_key(entries, key) {
        entries[place_of(entries, key)].metric_kind
    } else {
        first.metric_kind
    }
}

/// The values that come together under `key` when `observed` is merged
/// into `entries`: the value of the entry that has the key, if there is one,
/// and then the values of the observations.
pub open spec fn values_under(entries: Seq<TimeSeries>, observed: Seq<TimeSeries>, key: Seq<char>)
    -> Seq<u64> {
    if holds_key(entries, key) {
        seq![entries[place_of(entries, key)].points.value] + values_of(observed)
    } else {
        values_of(observed)
    }
}

/// Where observations that share a metric type are merged one after
/// another, the buffer has in the end distinct keys and an entry of that
/// type, of the kind that ruled the first merge; where that kind is a gauge,
/// the entry has the value of the last observation.
pub proof fn lemma_run_entry<F: Fn(u64, u64) -> u64>(
    sum: &F,
    states: Seq<Seq<TimeSeries>>,
    observed: Seq<TimeSeries>,
    key: Seq<char>,
)
    requires
        observed.len() >= 1,
        is_run(sum, states, observed),
        distinct_keys(states[0]),
        forall|k: int| 0 <= k < observed.len() ==> key_of(#[trigger] observed[k]) == key,
    ensures
        distinct_keys(states.last()),
        holds_key(states.last(), key),
        states.last()[place_of(states.last(), key)].metric_kind == ruling_kind(
            states[0],
            observed[0],
            key,
        ),
        ruling_kind(states[0], observed[0], key) == MetricKind::Gauge ==> states.last()[place_of(
            states.last(),
            key,
        )].points.value == observed.last().points.value,
    decreases observed.len(),
{
    let n = observed.len() as int;
    if n == 1 {
        assert(merged(sum, states[0], observed[0], states[1]));
        lemma_merged_entry(sum, states[0], observed[0], states[1]);
    } else {
        lemma_run_prefix(sum, states, observed);
        lemma_run_entry(sum, states.drop_last(), observed.drop_last(), key);
        assert(states.drop_last().last() == states[n - 1]);
        assert(merged(sum, states[n - 1], observed[n - 1], states[n]));
        lemma_merged_entry(sum, states[n - 1], observed[n - 1], states[n]);
    }
}

/// A run without its last merge is a run.
pub proof fn lemma_run_prefix<F: Fn(u64, u64) -> u64>(
    sum: &F,
    states: Seq<Seq<TimeSeries>>,
    observed: Seq<TimeSeries>,
)
    requires
        observed.len() >= 1,
        is_run(sum, states, observed),
    ensures
        is_run(sum, states.drop_last(), observed.drop_last()),
{
    let shorter = states.drop_last();
    assert forall|k: int| 0 <= k < observed.len() - 1 implies merged(
        sum,
        #[trigger] shorter[k],
        observed.drop_last()[k],
        shorter[k + 1],
    ) by {
        assert(merged(sum, states[k], observed[k], states[k + 1]));
    }
}

/// Last write wins. Where observations that share a metric type are merged
/// one after another, and a gauge rules the first merge, the buffered value
/// of that type is in the end the value of the last observation.
pub proof fn law_gauge_holds_last_value<F: Fn(u64, u64) -> u64>(
    sum: &F,
    states: Seq<Seq<TimeSeries>>,
    observed: Seq<TimeSeries>,
    key: Seq<char>,
)
    requires
        observed.len() >= 1,
        is_run(sum, states, observed),
        distinct_keys(states[0]),
        forall|k: int| 0 <= k < observed.len() ==> key_of(#[trigger] observed[k]) == key,
        ruling_kind(states[0], observed[0], key) == MetricKind::Gauge,
    ensures
        holds_key(states.last(), key),
        states.last()[place_of(states.last(), key)].points.value
            == observed.last().points.value,
{
    lemma_run_entry(sum, states, observed, key);
}

/// Accumulation. Where observations that share a metric type are merged one
/// after another, and a cumulative series rules the first merge, the
/// buffered value of that type is in the end a total of the values that came
/// together under it: of the value that was buffered before, if there was
/// one, and of the values of all the observations.
pub proof fn law_cumulative_holds_total<F: Fn(u64, u64) -> u64>(
    sum: &F,
    states: Seq<Seq<TimeSeries>>,
    observed: Seq<TimeSeries>,
    key: Seq<char>,
)
    requires
        observed.len() >= 1,
        is_run(sum, states, observed),
        distinct_keys(states[0]),
        forall|k: int| 0 <= k < observed.len() ==> key_of(#[trigger] observed[k]) == key,
        ruling_kind(states[0], observed[0], key) == MetricKind::Cumulative,
    ensures
        holds_key(states.last(), key),
        is_total(
            sum,
            values_under(states[0], observed, key),
            states.last()[place_of(states.last(), key)].points.value,
        ),
    decreases observed.len(),
{
    let n = observed.len() as int;
    let values = values_under(states[0], observed, key);
    if n == 1 {
        assert(merged(sum, states[0], observed[0], states[1]));
        lemma_merged_entry(sum, states[0], observed[0], states[1]);
        if holds_key(states[0], key) {
            let stored = states[0][place_of(states[0], key)].points.value;
            let total = states[1][place_of(states[1], key)].points.value;
            assert(values.drop_last() == seq![stored]);
            assert(is_total(sum, values.drop_last(), stored));
            assert(sums_to(sum, stored, values.last(), total));
        }
    } else {
        let earlier = observed.drop_last();
        lemma_run_prefix(sum, states, observed);
        lemma_run_entry(sum, states.drop_last(), earlier, key);
        law_cumulative_holds_total(sum, states.drop_last(), earlier, key);
        assert(states.drop_last().last() == states[n - 1]);
        assert(states.drop_last()[0] == states[0]);
        assert(merged(sum, states[n - 1], observed[n - 1], states[n]));
        lemma_merged_entry(sum, states[n - 1], observed[n - 1], states[n]);
        let before = states[n - 1];
        let partial = before[place_of(before, key)].points.value;
        let total = states[n][place_of(states[n], key)].points.value;
        assert(values.drop_last() == values_under(states[0], earlier, key));
        assert(is_total(sum, values.drop_last(), partial));
        assert(sums_to(sum, partial, values.last(), total));
    }
}

/// Observations merged by metric type, in the order in which their types
/// were first seen.
pub struct MergeBuffer {
    entries: Vec<TimeSeries>,
}

impl View for MergeBuffer {
    type V = Seq<TimeSeries>;

    closed spec fn view(&self) -> Seq<TimeSeries> {
        self.entries@
    }
}

impl MergeBuffer {
    #[verifier::type_invariant]
    spec fn inv(self) -> bool {
        distinct_keys(self.entries@)
    }

    /// A buffer without entries.
    pub fn new() -> (buffer: Self)
        ensures
            buffer@.len() == 0,
    {
        Self { entries: Vec::new() }
    }

    /// The number of entries.
    pub fn len(&self) -> (n: usize)
        ensures
            n == self@.len(),
    {
        self.entries.len()
    }

    /// Whether the buffer has no entries.
    pub fn is_empty(&self) -> (empty: bool)
        ensures
            empty == (self@.len() == 0),
    {
        self.entries.len() == 0
    }

    /// The place of the entry with the metric type `key`, if there is one.
    pub fn find(&self, key: &String) -> (place: Option<usize>)
        ensures
            place is Some <==> holds_key(self@, key@),
            place matches Some(i) ==> i == place_of(self@, key@) && i < self@.len(),
    {
        proof {
            use_type_invariant(self);
        }
        let mut i: usize = 0;
        while i < self.entries.len()
            invariant
                i <= self.entries.len(),
                forall|j: int| 0 <= j < i ==> key_of(#[trigger] self.entries@[j]) != key@,
                distinct_keys(self.entries@),
            decreases self.entries.len() - i,
        {
            if self.entries[i].metric.type_ == *key {
                assert(key_of(self.entries@[i as int]) == key@);
                return Some(i);
            }
            i += 1;
        }
        None
    }

    /// The entry with the metric type `key`, if there is one.
    pub fn get(&self, key: &String) -> (entry: Option<&TimeSeries>)
        ensures
            entry is Some <==> holds_key(self@, key@),
            entry matches Some(e) ==> *e == self@[place_of(self@, key@)],
    {
        match self.find(key) {
            Some(i) => Some(&self.entries[i]),
            None => None,
        }
    }

    /// Merges one observation into the buffer, taking sums with `sum`.
    pub fn ingest<F: Fn(u64, u64) -> u64>(&mut self, series: TimeSeries, sum: &F)
        requires
            forall|a: u64, b: u64| call_requires(*sum, (a, b)),
        ensures
            merged(sum, old(self)@, series, final(self)@),
            distinct_keys(old(self)@),
            distinct_keys(final(self)@),
    {
        proof {
            use_type_invariant(&*self);
        }
        let found = self.find(&series.metric.type_);
        let mut entries: Vec<TimeSeries> = Vec::new();
        std::mem::swap(&mut self.entries, &mut entries);
        match found {
            None => {
                entries.push(series);
            },
            Some(i) => {
                let stored = entries[i].points.value;
                let value = match entries[i].metric_kind {
                    MetricKind::Cumulative => sum(stored, series.points.value),
                    MetricKind::Gauge => series.points.value,
                };
                entries[i].points.value = value;
            },
        }
        self.entries = entries;
    }

    /// Removes all entries and returns them, in the order in which their
    /// metric types were first seen.
    pub fn drain(&mut self) -> (entries: Vec<TimeSeries>)
        ensures
            entries@ == old(self)@,
            final(self)@.len() == 0,
            distinct_keys(entries@),
    {
        proof {
            use_type_invariant(&*self);
        }
        let mut entries: Vec<TimeSeries> = Vec::new();
        std::mem::swap(&mut self.entries, &mut entries);
        entries
    }
}

} // verus!
