//! Tests for the configuration surface, the tick orchestrator's state, and
//! the loop decisions.

use lolburst::app::{game_ready, should_reseed, App};
use lolburst::config::{get_dataset_length, Config};
use lolburst::data::{Event, Events};
use lolburst::keyboard::{classify_char, KeyboardHandler};
use lolburst::series::ConfigError;

fn config(sample_rate: u64, dataset_lifetime: u64) -> Config {
    Config {
        use_sample_data: false,
        sample_rate,
        dataset_lifetime,
        rotation: String::from("QWE"),
    }
}

#[test]
fn default_config_values() {
    let config = Config::default();
    assert!(!config.use_sample_data);
    assert_eq!(config.sample_rate, 1);
    assert_eq!(config.dataset_lifetime, 300);
    assert_eq!(config.rotation, "QWE");
}

#[test]
fn dataset_length_is_lifetime_over_rate() {
    assert_eq!(get_dataset_length(&Config::default()), 300);
    assert_eq!(get_dataset_length(&config(5, 300)), 60);
    assert_eq!(get_dataset_length(&config(7, 300)), 42);
}

#[test]
fn app_rejects_a_zero_window() {
    // A lifetime shorter than the sample rate asks for zero samples.
    let result = App::new(&config(10, 5));
    assert!(matches!(result, Err(ConfigError::ZeroCapacity)));
}

#[test]
fn app_ticks_keep_the_three_charts_aligned() {
    let mut app = App::new(&config(60, 300)).unwrap();
    app.reset_datasets(&config(60, 300), 0);

    // First tick at 60 s: gold baseline set, creep score 10, vision 2.0.
    app.on_tick(60_000, 500_000, 10, 2_000);
    assert_eq!(app.gold.running_total, 0);
    assert_eq!(app.cs.running_total, 10_000);
    assert_eq!(app.vs.running_total, 2_000);
    assert_eq!(app.gold.samples.last().unwrap().timestamp, 60_000);
    assert_eq!(app.cs.samples.last().unwrap().timestamp, 60_000);
    assert_eq!(app.vs.samples.last().unwrap().timestamp, 60_000);
    assert_eq!(app.cs.samples.last().unwrap().rate, 10_000);
    assert_eq!(app.vs.samples.last().unwrap().rate, 2_000);

    // Second tick at 120 s: 150 gold earned over the two minutes.
    app.on_tick(120_000, 650_000, 24, 4_000);
    assert_eq!(app.gold.running_total, 150_000);
    assert_eq!(app.gold.samples.last().unwrap().rate, 75_000);
    assert_eq!(app.cs.samples.last().unwrap().rate, 12_000);
    assert_eq!(app.gold.samples.len(), 5);
    assert_eq!(app.cs.samples.len(), 5);
    assert_eq!(app.vs.samples.len(), 5);
}

#[test]
fn reseed_on_first_tick_or_clock_reset() {
    assert!(should_reseed(0, 0, 0));
    assert!(should_reseed(0, 0, 90_000));
    assert!(!should_reseed(3, 60_000, 90_000));
    // The clock moved backwards: a new game started.
    assert!(should_reseed(3, 90_000, 5_000));
    assert!(!should_reseed(3, 90_000, 90_000));
}

#[test]
fn game_is_ready_once_events_arrive() {
    assert!(!game_ready(&None));
    assert!(!game_ready(&Some(Events { events: vec![] })));
    let started = Events {
        events: vec![Event {
            event_id: 0,
            event_name: Some(String::from("GameStart")),
            event_time: 0,
        }],
    };
    assert!(game_ready(&Some(started)));
}

#[test]
fn q_quits_and_nothing_else_does() {
    assert_eq!(classify_char('q'), KeyboardHandler::Quit);
    assert_eq!(classify_char('l'), KeyboardHandler::Idle);
    assert_eq!(classify_char(' '), KeyboardHandler::Idle);
    assert_eq!(classify_char('Q'), KeyboardHandler::Idle);
}
