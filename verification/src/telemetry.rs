//! The append-only time series of telemetry samples and the rates derived from it.

use vstd::prelude::*;

verus! {

/// Milliseconds between two timer ticks.
pub const INTERVAL_MS: u64 = 300;

/// What the telemetry provider reports of the child at one moment.
#[derive(Clone, Copy, Debug, PartialEq, Eq, Structural)]
pub struct Reading {
    /// CPU usage in hundredths of a percent; one fully used core is 10000.
    pub cpu_hundredths: u64,
    /// Resident memory in bytes.
    pub memory_bytes: u64,
    /// Bytes read from disk since the child started.
    pub disk_read_total: u64,
    /// Bytes written to disk since the child started.
    pub disk_write_total: u64,
}

/// One reading with the time at which it was taken.
#[derive(Clone, Copy, Debug, PartialEq, Eq, Structural)]
pub struct TelemetrySample {
    /// Milliseconds between the start of the session and the reading.
    pub elapsed_ms: u64,
    /// CPU usage in hundredths of a percent; one fully used core is 10000.
    pub cpu_hundredths: u64,
    /// Resident memory in bytes.
    pub memory_bytes: u64,
    /// Bytes read from disk since the child started.
    pub disk_read_total: u64,
    /// Bytes written to disk since the child started.
    pub disk_write_total: u64,
}

/// The time between `started_at_ms` and `now_ms`, zero where the clock reads
/// earlier than the start.
pub open spec fn elapsed_between(started_at_ms: u64, now_ms: u64) -> u64 {
    if now_ms >= started_at_ms {
        (now_ms - started_at_ms) as u64
    } else {
        0
    }
}

/// The sample that a reading taken at `now_ms` gives in a session that
/// started at `started_at_ms`.
pub open spec fn sample_at(started_at_ms: u64, now_ms: u64, reading: Reading) -> TelemetrySample {
    TelemetrySample {
        elapsed_ms: elapsed_between(started_at_ms, now_ms),
        cpu_hundredths: reading.cpu_hundredths,
        memory_bytes: reading.memory_bytes,
        disk_read_total: reading.disk_read_total,
        disk_write_total: reading.disk_write_total,
    }
}

/// Whether every sample was taken later than all samples before it.
pub open spec fn time_ordered(samples: Seq<TelemetrySample>) -> bool {
    forall|i: int, j: int|
        0 <= i < j < samples.len() ==> samples[i].elapsed_ms < samples[j].elapsed_ms
}

/// The growth of a running total between two readings: zero where the later
/// total is the smaller one.
pub open spec fn growth(earlier_total: u64, later_total: u64) -> nat {
    if later_total >= earlier_total {
        (later_total - earlier_total) as nat
    } else {
        0
    }
}

/// Bytes per second, rounded down, for `delta` bytes moved in `interval_ms`
/// milliseconds.
pub open spec fn per_second(delta: nat, interval_ms: nat) -> nat
    recommends
        interval_ms > 0,
{
    delta * 1000 / interval_ms
}

/// The rate between two consecutive samples of one running total.
pub open spec fn rate_between(earlier_total: u64, later_total: u64, interval_ms: u64) -> nat
    recommends
        interval_ms > 0,
{
    per_second(growth(earlier_total, later_total), interval_ms as nat)
}

impl TelemetrySample {
    /// Puts a reading and the clock's value together.
    pub fn taken_at(started_at_ms: u64, now_ms: u64, reading: Reading) -> (sample: TelemetrySample)
        ensures
            sample == sample_at(started_at_ms, now_ms, reading),
    {
        let elapsed_ms: u64 = if now_ms >= started_at_ms {
            now_ms - started_at_ms
        } else {
            0
        };
        TelemetrySample {
            elapsed_ms,
            cpu_hundredths: reading.cpu_hundredths,
            memory_bytes: reading.memory_bytes,
            disk_read_total: reading.disk_read_total,
            disk_write_total: reading.disk_write_total,
        }
    }
}

/// Bytes per second for a byte count moved within one interval.
///
/// The exact quotient can exceed 64 bits by a factor of up to 1000; the
/// result keeps its low 64 bits.
pub fn bytes_per_second(delta: u64, interval_ms: u64) -> (rate: u64)
    requires
        interval_ms > 0,
    ensures
        rate as nat == per_second(delta as nat, interval_ms as nat) % 0x1_0000_0000_0000_0000,
        per_second(delta as nat, interval_ms as nat) <= u64::MAX ==> rate as nat == per_second(
            delta as nat,
            interval_ms as nat,
        ),
{
    let scaled: u128 = delta as u128 * 1000;
    let exact: u128 = scaled / (interval_ms as u128);
    let low: u128 = exact % 0x1_0000_0000_0000_0000u128;
    low as u64
}

/// The disk rate that two consecutive samples of a running total show.
pub fn disk_rate(earlier_total: u64, later_total: u64, interval_ms: u64) -> (rate: u64)
    requires
        interval_ms > 0,
    ensures
        rate as nat == rate_between(earlier_total, later_total, interval_ms)
            % 0x1_0000_0000_0000_0000,
        rate_between(earlier_total, later_total, interval_ms) <= u64::MAX ==> rate as nat
            == rate_between(earlier_total, later_total, interval_ms),
{
    let delta: u64 = if later_total >= earlier_total {
        later_total - earlier_total
    } else {
        0
    };
    bytes_per_second(delta, interval_ms)
}

/// The samples of one session, in the order in which they were taken.
///
/// Samples are appended and never changed or removed.
#[derive(Debug)]
pub struct TelemetryStore {
    samples: Vec<TelemetrySample>,
}

impl View for TelemetryStore {
    type V = Seq<TelemetrySample>;

    closed spec fn view(&self) -> Seq<TelemetrySample> {
        self.samples@
    }
}

impl TelemetryStore {
    /// A store without samples.
    pub fn new() -> (store: TelemetryStore)
        ensures
            store@ == Seq::<TelemetrySample>::empty(),
    {
        TelemetryStore { samples: Vec::new() }
    }

    /// Adds `sample` behind all earlier ones.
    pub fn append(&mut self, sample: TelemetrySample)
        ensures
            final(self)@ == old(self)@.push(sample),
    {
        self.samples.push(sample);
    }

    /// The number of samples.
    pub fn len(&self) -> (n: usize)
        ensures
            n == self@.len(),
    {
        self.samples.len()
    }

    /// Whether no sample was taken yet.
    pub fn is_empty(&self) -> (empty: bool)
        ensures
            empty == (self@.len() == 0),
    {
        self.samples.len() == 0
    }

    /// The sample at position `index`, counted from the oldest.
    pub fn get(&self, index: usize) -> (sample: Option<TelemetrySample>)
        ensures
            index < self@.len() ==> sample == Some(self@[index as int]),
            index >= self@.len() ==> sample is None,
    {
        if index < self.samples.len() {
            Some(self.samples[index])
        } else {
            None
        }
    }

    /// The most recent sample.
    pub fn latest(&self) -> (sample: Option<TelemetrySample>)
        ensures
            self@.len() > 0 ==> sample == Some(self@.last()),
            self@.len() == 0 ==> sample is None,
    {
        let n: usize = self.samples.len();
        if n > 0 {
            Some(self.samples[n - 1])
        } else {
            None
        }
    }

    /// The two most recent samples, the earlier one first.
    pub fn latest_pair(&self) -> (pair: Option<(TelemetrySample, TelemetrySample)>)
        ensures
            self@.len() >= 2 ==> pair == Some((self@[self@.len() - 2], self@[self@.len() - 1])),
            self@.len() < 2 ==> pair is None,
    {
        let n: usize = self.samples.len();
        if n >= 2 {
            Some((self.samples[n - 2], self.samples[n - 1]))
        } else {
            None
        }
    }

    /// All samples as a vector of their own, oldest first.
    pub fn to_vec(&self) -> (samples: Vec<TelemetrySample>)
        ensures
            samples@ == self@,
    {
        let mut samples: Vec<TelemetrySample> = Vec::new();
        let mut i: usize = 0;
        while i < self.samples.len()
            invariant
                i <= self.samples.len(),
                samples@ == self.samples@.take(i as int),
            decreases self.samples.len() - i,
        {
            samples.push(self.samples[i]);
            i = i + 1;
        }
        samples
    }

    /// A copy of the store, which later appends do not touch.
    pub fn snapshot(&self) -> (copy: TelemetryStore)
        ensures
            copy@ == self@,
    {
        TelemetryStore { samples: self.to_vec() }
    }
}

/// Appending a sample that was taken later than the last one keeps the
/// series ordered by time.
pub proof fn law_later_sample_keeps_order(samples: Seq<TelemetrySample>, sample: TelemetrySample)
    requires
        time_ordered(samples),
        samples.len() > 0 ==> samples.last().elapsed_ms < sample.elapsed_ms,
    ensures
        time_ordered(samples.push(sample)),
{
    let grown = samples.push(sample);
    assert forall|i: int, j: int| 0 <= i < j < grown.len() implies grown[i].elapsed_ms
        < grown[j].elapsed_ms by {
        if j == samples.len() && i < samples.len() - 1 {
            assert(samples[i].elapsed_ms < samples.last().elapsed_ms);
        }
    }
}

} // verus!
