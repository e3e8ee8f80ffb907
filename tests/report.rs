use easy_stress::config::SessionConfig;
use easy_stress::monitor::Monitor;
use easy_stress::report::{pretty_print_int, Job, SessionError};
use easy_stress::stop::StopState;
use easy_stress::stressors::Stressor;
use easy_stress::thermal::ThermalSummary;

#[test]
fn total_is_sum_of_worker_counts() {
    let outcomes = vec![Some(3), Some(0), Some(10), Some(7)];
    let job = Job::cpu(Stressor::Primes, &outcomes, StopState::UserCancelled, None).unwrap();
    assert_eq!(job.total_iterations(), 20);
    assert_eq!(job.cpu_count(), Some(4));
    assert_eq!(job.stop_reason(), "User cancelled");
    assert_eq!(job.name(), "Primes");
    assert_eq!(job.thermal(), None);
}

#[test]
fn lost_worker_is_fatal() {
    let outcomes = vec![Some(3), None, Some(10)];
    let r = Job::cpu(Stressor::Primes, &outcomes, StopState::TimeExceeded, None);
    assert!(matches!(r, Err(SessionError::WorkerLost)));
}

#[test]
fn iteration_total_overflow() {
    let outcomes = vec![Some(u64::MAX), Some(1)];
    let r = Job::cpu(Stressor::Fibonacci, &outcomes, StopState::TimeExceeded, None);
    assert!(matches!(r, Err(SessionError::IterationOverflow)));
    let outcomes = vec![Some(u64::MAX - 1), Some(1)];
    let job = Job::cpu(Stressor::Fibonacci, &outcomes, StopState::TimeExceeded, None).unwrap();
    assert_eq!(job.total_iterations(), u64::MAX);
}

#[test]
fn report_built_twice_is_identical() {
    let outcomes = vec![Some(11), Some(22), Some(33)];
    let thermal = Some(ThermalSummary { min: 41_000, average: 55_500, max: 70_250 });
    let a = Job::cpu(Stressor::MatrixMultiplication, &outcomes, StopState::TemperatureExceeded, thermal).unwrap();
    let b = Job::cpu(Stressor::MatrixMultiplication, &outcomes, StopState::TemperatureExceeded, thermal).unwrap();
    assert_eq!(a.name(), b.name());
    assert_eq!(a.name(), "Matrix Multiplication");
    assert_eq!(a.total_iterations(), b.total_iterations());
    assert_eq!(a.cpu_count(), b.cpu_count());
    assert_eq!(a.thermal(), b.thermal());
    assert_eq!(a.stop_reason(), b.stop_reason());
    assert_eq!(a.stop_reason(), "Temperature exceeded");
}

#[test]
fn four_units_two_ticks_scenario() {
    let config = SessionConfig::cpu(Stressor::Fibonacci, 4, None, Some(2), false).unwrap();
    let mut monitor = Monitor::new(&config);
    let mut cell = StopState::Running;
    let mut elapsed = 0;
    while cell.is_running() {
        let decided = monitor.tick(cell, None, elapsed);
        cell = cell.settle(decided);
        elapsed += 1;
    }
    assert!(elapsed > 2);
    let outcomes = vec![Some(5), Some(8), Some(13), Some(21)];
    let job = Job::cpu(config.stressor(), &outcomes, cell, monitor.thermal_summary()).unwrap();
    assert_eq!(job.cpu_count(), Some(4));
    assert_eq!(job.stop_reason(), "Time limit exceeded");
    assert!(job.total_iterations() > 0);
    assert_eq!(job.total_iterations(), 47);
    assert_eq!(job.thermal(), None);
}

#[test]
fn gpu_report() {
    let job = Job::gpu(Stressor::SquareRoot, 1234);
    assert_eq!(job.name(), "Square Root");
    assert_eq!(job.total_iterations(), 1234);
    assert_eq!(job.cpu_count(), None);
    assert_eq!(job.thermal(), None);
    assert_eq!(job.stop_reason(), "Time limit exceeded");
}

#[test]
fn thousands_separators() {
    assert_eq!(pretty_print_int(0), "0");
    assert_eq!(pretty_print_int(7), "7");
    assert_eq!(pretty_print_int(42), "42");
    assert_eq!(pretty_print_int(999), "999");
    assert_eq!(pretty_print_int(1000), "1,000");
    assert_eq!(pretty_print_int(1005), "1,005");
    assert_eq!(pretty_print_int(1234567), "1,234,567");
    assert_eq!(pretty_print_int(100200300), "100,200,300");
    assert_eq!(pretty_print_int(u64::MAX), "18,446,744,073,709,551,615");
}
