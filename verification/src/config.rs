//! The explicit configuration surface, constructed once at startup and
//! passed by reference into every component constructor.

use vstd::prelude::*;

verus! {

/// Largest sample rate accepted, in seconds. Keeps the period in
/// milliseconds inside the series' bound.
pub const SAMPLE_RATE_MAX: u64 = 1_000_000;

/// Largest dataset lifetime accepted, in seconds. Keeps the window capacity
/// inside the series' bound.
pub const DATASET_LIFETIME_MAX: u64 = 1_000_000;

/// Runtime configuration: polling cadence, window lifetime, the burst
/// rotation, and whether recorded fixtures replace the live endpoint.
#[derive(Clone, Debug)]
pub struct Config {
    pub use_sample_data: bool,
    /// Seconds between ticks.
    pub sample_rate: u64,
    /// Seconds of history a chart retains; the window capacity is
    /// `dataset_lifetime / sample_rate`.
    pub dataset_lifetime: u64,
    /// The ability rotation a burst estimate sums.
    pub rotation: String,
}

impl Config {
    /// The bounds every component constructor expects.
    pub open spec fn wf(&self) -> bool {
        &&& 1 <= self.sample_rate <= SAMPLE_RATE_MAX
        &&& self.dataset_lifetime <= DATASET_LIFETIME_MAX
        &&& self.rotation@.len() <= crate::champions::ROTATION_MAX
    }
}

impl Default for Config {
    /// One-second sampling over a five-minute window, polling the live
    /// endpoint, with a three-ability burst rotation.
    fn default() -> (config: Config)
        ensures
            config.use_sample_data == false,
            config.sample_rate == 1,
            config.dataset_lifetime == 300,
            config.rotation@ == "QWE"@,
            config.wf(),
    {
        proof {
            reveal_strlit("QWE");
        }
        Config {
            use_sample_data: false,
            sample_rate: 1,
            dataset_lifetime: 300,
            rotation: String::from_str("QWE"),
        }
    }
}

/// The window capacity a configuration asks for: its lifetime divided by its
/// sample rate. A result of zero is the fatal misconfiguration that
/// initialization rejects.
pub fn get_dataset_length(config: &Config) -> (len: usize)
    requires
        config.wf(),
    ensures
        len == config.dataset_lifetime as int / config.sample_rate as int,
        len <= crate::series::CAPACITY_MAX,
{
    (config.dataset_lifetime / config.sample_rate) as usize
}

} // verus!
