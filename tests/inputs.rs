use easy_stress::config::{check_ceiling, check_duration_minutes, check_termination_selection, duration_ms_from_minutes, InputRejection};
use easy_stress::progress::{clock_reading, temperature_band, Clock, TemperatureBand};
use easy_stress::sensors::{cpu_temp, SensorReading};

fn reading(label: &str, millidegrees: i64) -> SensorReading {
    SensorReading { label: label.to_string(), millidegrees }
}

#[test]
fn first_cpu_labelled_sensor() {
    let rs = vec![reading("acpitz", 30_000), reading("Package CPU 0", 55_250), reading("CPU core 1", 60_000)];
    assert_eq!(cpu_temp(&rs), Some(55_250));
    let rs = vec![reading("acpitz", 30_000), reading("nvme Composite", 40_000), reading("cpu", 1)];
    assert_eq!(cpu_temp(&rs), None);
    assert_eq!(cpu_temp(&vec![]), None);
    assert_eq!(cpu_temp(&vec![reading("CPU", -1_500)]), Some(-1_500));
    assert_eq!(cpu_temp(&vec![reading("CP", 1), reading("xxCPU", 2)]), Some(2));
}

#[test]
fn prompt_checks() {
    assert_eq!(check_termination_selection(0), Err(InputRejection::NothingSelected));
    assert_eq!(check_termination_selection(2), Ok(()));
    assert_eq!(check_duration_minutes(0), Err(InputRejection::ZeroDuration));
    assert_eq!(check_duration_minutes(1), Ok(()));
    assert_eq!(check_ceiling(0, None), Err(InputRejection::ZeroCeiling));
    assert_eq!(check_ceiling(90, None), Ok(()));
    assert_eq!(check_ceiling(60, Some(60_500)), Err(InputRejection::CeilingBelowCurrent));
    assert_eq!(check_ceiling(60, Some(60_000)), Ok(()));
    assert_eq!(check_ceiling(255, Some(100_000)), Ok(()));
    assert_eq!(InputRejection::ZeroDuration.message(), "Test cannot be 0 minutes");
    assert_eq!(InputRejection::ZeroCeiling.message(), "Temperature must not be 0");
    assert_eq!(InputRejection::NothingSelected.message(), "This list is too small!");
    assert_eq!(duration_ms_from_minutes(1), 60_000);
    assert_eq!(duration_ms_from_minutes(u16::MAX), 3_932_100_000);
}

#[test]
fn progress_clock() {
    assert_eq!(clock_reading(Some(120), 0), Clock::MinutesSeconds(2, 0));
    assert_eq!(clock_reading(Some(120), 60), Clock::Seconds(60));
    assert_eq!(clock_reading(Some(120), 121), Clock::Seconds(0));
    assert_eq!(clock_reading(Some(7_325), 0), Clock::HoursMinutesSeconds(2, 2, 5));
    assert_eq!(clock_reading(Some(3_600), 0), Clock::MinutesSeconds(60, 0));
    assert_eq!(clock_reading(None, 61), Clock::MinutesSeconds(1, 1));
    assert_eq!(clock_reading(None, 5), Clock::Seconds(5));
}

#[test]
fn progress_temperature_bands() {
    assert_eq!(temperature_band(80_001), TemperatureBand::Hot);
    assert_eq!(temperature_band(80_000), TemperatureBand::Warm);
    assert_eq!(temperature_band(60_001), TemperatureBand::Warm);
    assert_eq!(temperature_band(60_000), TemperatureBand::Normal);
    assert_eq!(temperature_band(-5_000), TemperatureBand::Normal);
}
