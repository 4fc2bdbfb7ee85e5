//! The rolling metric series: a fixed-length, time-ordered sliding window of
//! per-minute rate samples, fed by a cumulative or direct total and
//! re-synchronized against an externally supplied game clock.
//!
//! Times are in milliseconds; totals are in milli-units (thousandths of a
//! unit); rates are in milli-units per minute.

use vstd::prelude::*;

verus! {

/// Largest running total the series accepts, in milli-units.
/// Keeps the rate computation inside `u64`.
pub const TOTAL_MAX: u64 = 100_000_000_000_000;

/// Largest game clock the series accepts, in milliseconds.
pub const CLOCK_MAX: i64 = 10_000_000_000;

/// Largest sample period, in milliseconds.
pub const PERIOD_MAX: u64 = 1_000_000_000;

/// Largest window capacity, in samples.
pub const CAPACITY_MAX: usize = 1_000_000;

/// One point of a metric window: the game clock at which it was taken and the
/// per-minute rate observed then.
#[derive(Clone, Copy, PartialEq, Eq, Structural, Debug)]
pub struct Sample {
    /// Game clock of the sample, in milliseconds. Back-filled samples from
    /// (re)initialization carry synthetic past clocks, which may be negative.
    pub timestamp: i64,
    /// Rate at that clock, in milli-units per minute.
    pub rate: u64,
}

/// A misconfiguration detected while building a series; fatal at startup.
#[derive(Clone, Copy, PartialEq, Eq, Structural, Debug)]
pub enum ConfigError {
    /// The requested window capacity was zero.
    ZeroCapacity,
}

/// The per-minute rate derived from a running total (milli-units) at a game
/// clock (milliseconds), in milli-units per minute.
///
/// The total is first floored to whole units. For clocks under one second the
/// time bucket is rounded up to a full minute, so early-game rates cannot
/// spike toward infinity; from one second on the rate is the total divided by
/// the elapsed minutes, truncated to milli precision.
pub open spec fn rate_per_minute_spec(total: int, clock_ms: int) -> int {
    if clock_ms < 1000 {
        (total / 1000) * 1000
    } else {
        ((total / 1000) * 60_000_000) / clock_ms
    }
}

/// A fixed-capacity, time-ordered window of rate samples with
/// monotonic-decrease-tolerant total tracking.
pub struct RollingMetricSeries {
    /// Number of retained samples; the window always holds exactly this many.
    pub capacity: usize,
    /// The window, oldest sample first, non-decreasing in timestamp.
    pub samples: Vec<Sample>,
    /// Accumulated total, in milli-units.
    pub running_total: u64,
    /// Last cumulative input observed, in milli-units; `None` until the first
    /// `record_cumulative`, whose value only sets the baseline.
    pub last_raw_value: Option<u64>,
}

impl RollingMetricSeries {
    /// Well-formedness: the window is fully populated, time-ordered, and the
    /// total is small enough for the rate computation.
    pub open spec fn wf(&self) -> bool {
        &&& self.capacity >= 1
        &&& self.samples@.len() == self.capacity
        &&& forall|i: int, j: int|
            0 <= i <= j < self.samples@.len() ==> self.samples@[i].timestamp
                <= self.samples@[j].timestamp
        &&& self.running_total <= TOTAL_MAX
    }

    /// The state `initialize` establishes: a zeroed total, no baseline yet,
    /// and a full window of zero rates at synthetic past timestamps ending
    /// at the given clock.
    pub open spec fn is_fresh(&self, capacity: int, period_ms: int, clock_ms: int) -> bool {
        &&& self.wf()
        &&& self.capacity == capacity
        &&& self.running_total == 0
        &&& self.last_raw_value is None
        &&& forall|i: int|
            0 <= i < capacity ==> #[trigger] self.samples@[i].timestamp == clock_ms - period_ms * (
            capacity - 1 - i) && self.samples@[i].rate == 0
    }

    /// Builds a fully populated window: `capacity` slots back-filled with
    /// synthetic past timestamps `clock_ms - period_ms * (capacity - 1 - i)`
    /// and zero rates. A zero capacity is a fatal misconfiguration.
    pub fn initialize(capacity: usize, period_ms: u64, clock_ms: i64) -> (result: Result<
        Self,
        ConfigError,
    >)
        requires
            capacity <= CAPACITY_MAX,
            1 <= period_ms <= PERIOD_MAX,
            0 <= clock_ms <= CLOCK_MAX,
        ensures
            capacity == 0 <==> result is Err,
            result is Err ==> result == Result::<Self, ConfigError>::Err(ConfigError::ZeroCapacity),
            result matches Ok(s) ==> s.is_fresh(capacity as int, period_ms as int, clock_ms as int),
    {
        if capacity == 0 {
            return Err(ConfigError::ZeroCapacity);
        }
        let mut samples: Vec<Sample> = Vec::new();
        let mut i: usize = 0;
        while i < capacity
            invariant
                i <= capacity,
                1 <= capacity <= CAPACITY_MAX,
                1 <= period_ms <= PERIOD_MAX,
                0 <= clock_ms <= CLOCK_MAX,
                samples@.len() == i,
                forall|k: int|
                    0 <= k < i ==> #[trigger] samples@[k].timestamp == clock_ms
                        - period_ms * (capacity - 1 - k) && samples@[k].rate == 0,
            decreases capacity - i,
        {
            let back_steps: u64 = (capacity - 1 - i) as u64;
            proof {
                assert(period_ms * back_steps <= 1_000_000_000_000_000) by (nonlinear_arith)
                    requires
                        period_ms <= 1_000_000_000,
                        back_steps < 1_000_000,
                ;
            }
            let timestamp: i64 = clock_ms - (period_ms * back_steps) as i64;
            samples.push(Sample { timestamp, rate: 0 });
            i = i + 1;
        }
        proof {
            assert forall|k1: int, k2: int|
                0 <= k1 <= k2 < capacity implies samples@[k1].timestamp
                <= samples@[k2].timestamp by {
                assert(period_ms * (capacity - 1 - k2) <= period_ms * (capacity - 1 - k1))
                    by (nonlinear_arith)
                    requires
                        period_ms >= 1,
                        0 <= k1 <= k2 < capacity,
                ;
            }
        }
        Ok(RollingMetricSeries { capacity, samples, running_total: 0, last_raw_value: None })
    }

    /// The running total after one cumulative reading: a strictly increasing
    /// reading adds its delta, anything else (including the baseline-setting
    /// first reading) leaves the total unchanged.
    pub open spec fn cumulative_total_after(self, raw_value: int) -> int {
        match self.last_raw_value {
            Some(last) => if raw_value > last {
                self.running_total + (raw_value - last)
            } else {
                self.running_total as int
            },
            None => self.running_total as int,
        }
    }

    /// Feeds one cumulative reading. A strictly increasing value adds its
    /// delta to the running total; an equal or decreased value (a new game, a
    /// stat reset, or a bad read) contributes nothing. The very first reading
    /// only establishes the baseline. The reading always becomes the new
    /// `last_raw_value`.
    pub fn record_cumulative(&mut self, raw_value: u64)
        requires
            old(self).running_total + raw_value <= TOTAL_MAX,
        ensures
            final(self).last_raw_value == Some(raw_value),
            final(self).running_total == old(self).cumulative_total_after(raw_value as int),
            final(self).samples == old(self).samples,
            final(self).capacity == old(self).capacity,
            old(self).wf() ==> final(self).wf(),
    {
        if let Some(last) = self.last_raw_value {
            if raw_value > last {
                self.running_total = self.running_total + (raw_value - last);
            }
        }
        self.last_raw_value = Some(raw_value);
    }

    /// Feeds one reading that is already a total reported by the source: it
    /// replaces the running total outright, skipping the delta logic.
    pub fn record_rate_direct(&mut self, raw_rate: u64)
        requires
            raw_rate <= TOTAL_MAX,
        ensures
            final(self).running_total == raw_rate,
            final(self).last_raw_value == old(self).last_raw_value,
            final(self).samples == old(self).samples,
            final(self).capacity == old(self).capacity,
            old(self).wf() ==> final(self).wf(),
    {
        self.running_total = raw_rate;
    }

    /// The per-minute rate of the current running total at the given clock.
    pub fn compute_rate_per_minute(&self, clock_ms: i64) -> (rate: u64)
        requires
            self.running_total <= TOTAL_MAX,
            0 <= clock_ms,
        ensures
            rate == rate_per_minute_spec(self.running_total as int, clock_ms as int),
    {
        let units: u64 = self.running_total / 1000;
        if clock_ms < 1000 {
            units * 1000
        } else {
            (units * 60_000_000) / (clock_ms as u64)
        }
    }

    /// One tick: evicts the oldest sample and appends one at the given clock
    /// with the freshly computed rate. The clock must not have moved backwards
    /// past the newest retained sample; on a game restart the orchestrator
    /// re-initializes the series instead of advancing it.
    pub fn advance(&mut self, clock_ms: i64)
        requires
            old(self).wf(),
            0 <= clock_ms <= CLOCK_MAX,
            old(self).samples@.last().timestamp <= clock_ms,
        ensures
            final(self).wf(),
            final(self).capacity == old(self).capacity,
            final(self).running_total == old(self).running_total,
            final(self).last_raw_value == old(self).last_raw_value,
            final(self).samples@ == old(self).samples@.subrange(
                1,
                old(self).samples@.len() as int,
            ).push(
                Sample {
                    timestamp: clock_ms,
                    rate: rate_per_minute_spec(
                        old(self).running_total as int,
                        clock_ms as int,
                    ) as u64,
                },
            ),
    {
        let rate = self.compute_rate_per_minute(clock_ms);
        self.samples.remove(0);
        self.samples.push(Sample { timestamp: clock_ms, rate });
    }

    /// The chart's x-axis bounds: the timestamps of the oldest and the newest
    /// retained sample.
    pub fn x_axis_bounds(&self) -> (bounds: (i64, i64))
        requires
            self.wf(),
        ensures
            bounds.0 == self.samples@.first().timestamp,
            bounds.1 == self.samples@.last().timestamp,
    {
        let front = self.samples[0];
        let back = self.samples[self.samples.len() - 1];
        (front.timestamp, back.timestamp)
    }
}

/// Splits a milli-unit rate into the whole part and the first decimal
/// digit, truncated, for the one-decimal rate readout.
pub fn rate_display_parts(rate_milli: u64) -> (parts: (u64, u64))
    ensures
        parts.0 == rate_milli / 1000,
        parts.1 == (rate_milli % 1000) / 100,
        parts.1 <= 9,
{
    (rate_milli / 1000, (rate_milli % 1000) / 100)
}

/// The window invariant: a well-formed series always holds exactly
/// `capacity` samples, ordered by non-decreasing timestamp. `initialize`
/// establishes well-formedness and every mutator preserves it, so this holds
/// after any number of ticks.
pub proof fn lemma_window_invariant(s: &RollingMetricSeries)
    requires
        s.wf(),
    ensures
        s.samples@.len() == s.capacity,
        forall|i: int, j: int|
            0 <= i <= j < s.samples@.len() ==> s.samples@[i].timestamp <= s.samples@[j].timestamp,
{
}

} // verus!
