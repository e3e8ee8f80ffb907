use easy_stress::config::{ConfigError, SessionConfig};
use easy_stress::monitor::Monitor;
use easy_stress::stop::StopState;
use easy_stress::stressors::Stressor;
use easy_stress::thermal::{ThermalStats, ThermalSummary};

fn config(ceiling: Option<u8>, duration_ms: Option<u64>, sensor: bool) -> SessionConfig {
    SessionConfig::cpu(Stressor::Primes, 2, ceiling, duration_ms, sensor).unwrap()
}

#[test]
fn duration_stops_only_beyond_it() {
    let c = config(None, Some(2), true);
    let mut m = Monitor::new(&c);
    assert_eq!(m.tick(StopState::Running, Some(50_000), 0), StopState::Running);
    assert_eq!(m.tick(StopState::Running, Some(51_000), 2), StopState::Running);
    assert_eq!(m.tick(StopState::Running, Some(52_000), 3), StopState::TimeExceeded);
    assert_eq!(StopState::TimeExceeded.reason(), Some("Time limit exceeded"));
}

#[test]
fn temperature_checked_before_time() {
    let c = config(Some(80), Some(1_000), true);
    let mut m = Monitor::new(&c);
    // 80.001 degrees is above a ceiling of 80, and the duration has run out too.
    let s = m.tick(StopState::Running, Some(80_001), 5_000);
    assert_eq!(s, StopState::TemperatureExceeded);
    assert_eq!(s.reason(), Some("Temperature exceeded"));
    // Exactly at the ceiling is not above it.
    let mut m = Monitor::new(&c);
    assert_eq!(m.tick(StopState::Running, Some(80_000), 10), StopState::Running);
}

#[test]
fn stopped_session_takes_no_sample() {
    let c = config(Some(90), Some(1_000), true);
    let mut m = Monitor::new(&c);
    assert_eq!(m.tick(StopState::UserCancelled, Some(99_000), 5_000), StopState::UserCancelled);
    assert_eq!(m.sample_count(), 0);
    assert_eq!(m.thermal_summary(), None);
}

#[test]
fn cancellation_without_ceilings() {
    let c = config(None, None, true);
    let mut m = Monitor::new(&c);
    for e in [0u64, 1, 1_000_000, u64::MAX] {
        assert_eq!(m.tick(StopState::Running, Some(70_000), e), StopState::Running);
    }
    let cell = StopState::Running.settle(StopState::UserCancelled);
    assert_eq!(m.tick(cell, Some(70_000), 5), StopState::UserCancelled);
    assert!(!cell.is_running());
}

#[test]
fn sensorless_temperature_only_is_rejected() {
    let r = SessionConfig::cpu(Stressor::Fibonacci, 4, Some(90), None, false);
    assert!(matches!(r, Err(ConfigError::UnenforceableCeiling)));
    let c = SessionConfig::cpu(Stressor::Fibonacci, 4, Some(90), Some(100), false).unwrap();
    let mut m = Monitor::new(&c);
    assert_eq!(m.tick(StopState::Running, None, 100), StopState::Running);
    assert_eq!(m.tick(StopState::Running, None, 101), StopState::TimeExceeded);
    assert_eq!(m.thermal_summary(), None);
}

#[test]
fn zero_units_rejected() {
    let r = SessionConfig::cpu(Stressor::Fibonacci, 0, None, Some(100), true);
    assert!(matches!(r, Err(ConfigError::NoUnits)));
    let c = SessionConfig::cpu(Stressor::Fibonacci, 1, None, None, false).unwrap();
    assert_eq!(c.unit_count(), 1);
    assert_eq!(c.stressor(), Stressor::Fibonacci);
    assert_eq!(c.temperature_ceiling(), None);
    assert_eq!(c.duration_ms(), None);
}

#[test]
fn thermal_summary_of_samples() {
    let c = config(None, Some(10), true);
    let mut m = Monitor::new(&c);
    m.tick(StopState::Running, Some(40_000), 0);
    m.tick(StopState::Running, None, 1);
    m.tick(StopState::Running, Some(60_500), 2);
    m.tick(StopState::Running, Some(50_000), 3);
    assert_eq!(m.sample_count(), 3);
    assert_eq!(
        m.thermal_summary(),
        Some(ThermalSummary { min: 40_000, average: 50_166, max: 60_500 })
    );
}

#[test]
fn thermal_mean_rounds_toward_zero() {
    let mut t = ThermalStats::new();
    assert_eq!(t.summary(), None);
    t.record(-5);
    t.record(-2);
    assert_eq!(t.summary(), Some(ThermalSummary { min: -5, average: -3, max: -2 }));
    let mut t = ThermalStats::new();
    t.record(0);
    assert_eq!(t.summary(), Some(ThermalSummary { min: 0, average: 0, max: 0 }));
    let mut t = ThermalStats::new();
    t.record(i64::MAX);
    t.record(i64::MAX);
    t.record(i64::MIN);
    assert_eq!(t.sample_count(), 3);
    assert_eq!(
        t.summary(),
        Some(ThermalSummary { min: i64::MIN, average: 3074457345618258602, max: i64::MAX })
    );
}
