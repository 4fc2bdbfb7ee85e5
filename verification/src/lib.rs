//! Live-game dashboard core: rolling per-minute metric series, opponent
//! resolution, and burst-damage estimation.
//!
//! All quantities that the game reports as fractional numbers are carried in
//! fixed-point form: times in milliseconds, stat values in thousandths of a
//! unit ("milli-units"). Rates are milli-units per minute.

pub mod active_player;
pub mod app;
pub mod burst_table;
pub mod champions;
pub mod config;
pub mod data;
pub mod dmg;
pub mod keyboard;
pub mod resistance;
pub mod series;
pub mod teams;
mod text;

pub use series::RollingMetricSeries;
