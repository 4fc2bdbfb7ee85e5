//! The tick orchestrator's state and decisions: the three rolling metric
//! series updated together each tick, the cached burst rows, and the
//! re-seed and readiness rules the application loop follows.

use vstd::prelude::*;
use vstd::pervasive::unreached;

use crate::burst_table::BurstRow;
use crate::config::{get_dataset_length, Config};
use crate::data::Events;
use crate::series::{
    rate_per_minute_spec, ConfigError, RollingMetricSeries, Sample, CLOCK_MAX, TOTAL_MAX,
};

verus! {

/// The dashboard state one tick reads and writes: one series per tracked
/// metric, kept mutually consistent, plus the last built burst rows.
pub struct App {
    pub gold: RollingMetricSeries,
    pub cs: RollingMetricSeries,
    pub vs: RollingMetricSeries,
    pub burst_table_items: Vec<BurstRow>,
}

impl App {
    /// All three windows are well formed.
    pub open spec fn wf(&self) -> bool {
        &&& self.gold.wf()
        &&& self.cs.wf()
        &&& self.vs.wf()
    }

    /// All three windows end at the same game clock, so the three charts
    /// stay aligned.
    pub open spec fn aligned(&self, clock_ms: int) -> bool {
        &&& self.gold.samples@.last().timestamp == clock_ms
        &&& self.cs.samples@.last().timestamp == clock_ms
        &&& self.vs.samples@.last().timestamp == clock_ms
    }

    /// Builds the three series, windows back-filled from clock zero. The
    /// zero-capacity misconfiguration is fatal: the caller must not enter
    /// the tick loop with it.
    pub fn new(config: &Config) -> (result: Result<App, ConfigError>)
        requires
            config.wf(),
        ensures
            config.dataset_lifetime as int / config.sample_rate as int == 0 <==> result is Err,
            result is Err ==> result == Result::<App, ConfigError>::Err(ConfigError::ZeroCapacity),
            result matches Ok(app) ==> {
                &&& app.wf()
                &&& app.gold.is_fresh(
                    config.dataset_lifetime as int / config.sample_rate as int,
                    config.sample_rate * 1000,
                    0,
                )
                &&& app.cs.is_fresh(
                    config.dataset_lifetime as int / config.sample_rate as int,
                    config.sample_rate * 1000,
                    0,
                )
                &&& app.vs.is_fresh(
                    config.dataset_lifetime as int / config.sample_rate as int,
                    config.sample_rate * 1000,
                    0,
                )
                &&& app.burst_table_items@.len() == 0
            },
    {
        let capacity = get_dataset_length(config);
        let period_ms = config.sample_rate * 1000;
        let gold = match RollingMetricSeries::initialize(capacity, period_ms, 0) {
            Ok(s) => s,
            Err(e) => {
                return Err(e);
            },
        };
        let cs = match RollingMetricSeries::initialize(capacity, period_ms, 0) {
            Ok(s) => s,
            Err(_) => {
                return unreached();
            },
        };
        let vs = match RollingMetricSeries::initialize(capacity, period_ms, 0) {
            Ok(s) => s,
            Err(_) => {
                return unreached();
            },
        };
        Ok(App { gold, cs, vs, burst_table_items: Vec::new() })
    }

    /// Re-seeds all three windows at the given clock, discarding their
    /// totals and baselines: the game-restart transition.
    pub fn reset_datasets(&mut self, config: &Config, clock_ms: i64)
        requires
            config.wf(),
            config.dataset_lifetime as int / config.sample_rate as int >= 1,
            0 <= clock_ms <= CLOCK_MAX,
        ensures
            final(self).gold.is_fresh(
                config.dataset_lifetime as int / config.sample_rate as int,
                config.sample_rate * 1000,
                clock_ms as int,
            ),
            final(self).cs.is_fresh(
                config.dataset_lifetime as int / config.sample_rate as int,
                config.sample_rate * 1000,
                clock_ms as int,
            ),
            final(self).vs.is_fresh(
                config.dataset_lifetime as int / config.sample_rate as int,
                config.sample_rate * 1000,
                clock_ms as int,
            ),
            final(self).wf(),
            final(self).aligned(clock_ms as int),
            final(self).burst_table_items == old(self).burst_table_items,
    {
        let capacity = get_dataset_length(config);
        let period_ms = config.sample_rate * 1000;
        match RollingMetricSeries::initialize(capacity, period_ms, clock_ms) {
            Ok(s) => {
                self.gold = s;
            },
            Err(_) => {
                return unreached();
            },
        }
        match RollingMetricSeries::initialize(capacity, period_ms, clock_ms) {
            Ok(s) => {
                self.cs = s;
            },
            Err(_) => {
                return unreached();
            },
        }
        match RollingMetricSeries::initialize(capacity, period_ms, clock_ms) {
            Ok(s) => {
                self.vs = s;
            },
            Err(_) => {
                return unreached();
            },
        }
        proof {
            let capacity_int = config.dataset_lifetime as int / config.sample_rate as int;
            assert(self.gold.samples@.last().timestamp == clock_ms - (config.sample_rate * 1000) * (
            capacity_int - 1 - (capacity_int - 1)));
        }
    }

    /// One tick: feeds the three raw readings — cumulative gold, direct
    /// creep score, direct vision score — and advances every window to the
    /// given clock, keeping the three charts aligned.
    pub fn on_tick(&mut self, clock_ms: i64, current_gold: u64, current_cs: i64, current_vs: u64)
        requires
            old(self).wf(),
            0 <= clock_ms <= CLOCK_MAX,
            old(self).gold.samples@.last().timestamp <= clock_ms,
            old(self).cs.samples@.last().timestamp <= clock_ms,
            old(self).vs.samples@.last().timestamp <= clock_ms,
            old(self).gold.running_total + current_gold <= TOTAL_MAX,
            0 <= current_cs,
            current_cs * 1000 <= TOTAL_MAX,
            current_vs <= TOTAL_MAX,
        ensures
            final(self).wf(),
            final(self).aligned(clock_ms as int),
            final(self).gold.last_raw_value == Some(current_gold),
            final(self).gold.running_total == old(self).gold.cumulative_total_after(
                current_gold as int,
            ),
            final(self).cs.running_total == current_cs * 1000,
            final(self).vs.running_total == current_vs,
            final(self).gold.samples@ == old(self).gold.samples@.subrange(
                1,
                old(self).gold.samples@.len() as int,
            ).push(
                Sample {
                    timestamp: clock_ms,
                    rate: rate_per_minute_spec(
                        old(self).gold.cumulative_total_after(current_gold as int),
                        clock_ms as int,
                    ) as u64,
                },
            ),
            final(self).cs.samples@ == old(self).cs.samples@.subrange(
                1,
                old(self).cs.samples@.len() as int,
            ).push(
                Sample {
                    timestamp: clock_ms,
                    rate: rate_per_minute_spec(current_cs * 1000, clock_ms as int) as u64,
                },
            ),
            final(self).vs.samples@ == old(self).vs.samples@.subrange(
                1,
                old(self).vs.samples@.len() as int,
            ).push(
                Sample {
                    timestamp: clock_ms,
                    rate: rate_per_minute_spec(current_vs as int, clock_ms as int) as u64,
                },
            ),
            final(self).gold.capacity == old(self).gold.capacity,
            final(self).cs.capacity == old(self).cs.capacity,
            final(self).vs.capacity == old(self).vs.capacity,
            final(self).burst_table_items == old(self).burst_table_items,
    {
        self.gold.record_cumulative(current_gold);
        self.gold.advance(clock_ms);
        self.cs.record_rate_direct((current_cs as u64) * 1000);
        self.cs.advance(clock_ms);
        self.vs.record_rate_direct(current_vs);
        self.vs.advance(clock_ms);
    }
}

/// Whether the tick orchestrator must re-seed the windows before this tick:
/// at the very first tick, and whenever the game clock has moved backwards
/// (a new game has started).
pub fn should_reseed(cycle: u64, previous_clock_ms: i64, clock_ms: i64) -> (reseed: bool)
    ensures
        reseed <==> (cycle == 0 || clock_ms < previous_clock_ms),
{
    cycle == 0 || clock_ms < previous_clock_ms
}

/// Whether a decoded payload marks the game as started: the source sends a
/// non-empty event list only once the loading screen is over.
pub fn game_ready(events: &Option<Events>) -> (ready: bool)
    ensures
        ready <==> (events matches Some(e) && e.events@.len() > 0),
{
    match events {
        Some(e) => e.events.len() > 0,
        None => false,
    }
}

} // verus!
