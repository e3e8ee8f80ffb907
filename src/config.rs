use vstd::prelude::*;
use crate::stressors::Stressor;

verus! {

/// Why a CPU session cannot be set up.
#[derive(Clone, Copy, Debug, PartialEq, Eq, Structural)]
pub enum ConfigError {
    /// No worker thread was asked for.
    NoUnits,
    /// Only a temperature ceiling ends the session, and the host has no
    /// thermal sensor to enforce it: the session would never end.
    UnenforceableCeiling,
}

/// The error, if any, that setting up a CPU session with these values meets.
pub open spec fn config_error(
    unit_count: usize,
    ceiling: Option<u8>,
    duration_ms: Option<u64>,
    sensor_present: bool,
) -> Option<ConfigError> {
    if unit_count == 0 {
        Some(ConfigError::NoUnits)
    } else if ceiling is Some && duration_ms is None && !sensor_present {
        Some(ConfigError::UnenforceableCeiling)
    } else {
        None
    }
}

/// What one CPU session runs and when it ends: the workload, the number of
/// worker threads, an optional temperature ceiling in whole degrees Celsius and
/// an optional duration in milliseconds. Fixed before any thread starts.
pub struct SessionConfig {
    stressor: Stressor,
    unit_count: usize,
    ceiling: Option<u8>,
    duration_ms: Option<u64>,
}

impl SessionConfig {
    pub closed spec fn spec_stressor(&self) -> Stressor {
        self.stressor
    }

    pub closed spec fn spec_unit_count(&self) -> usize {
        self.unit_count
    }

    pub closed spec fn spec_ceiling(&self) -> Option<u8> {
        self.ceiling
    }

    pub closed spec fn spec_duration_ms(&self) -> Option<u64> {
        self.duration_ms
    }

    /// Sets up a CPU session. `sensor_present` says whether the host reports a
    /// CPU temperature at all.
    pub fn cpu(
        stressor: Stressor,
        unit_count: usize,
        ceiling: Option<u8>,
        duration_ms: Option<u64>,
        sensor_present: bool,
    ) -> (r: Result<SessionConfig, ConfigError>)
        ensures
            r is Err <==> config_error(unit_count, ceiling, duration_ms, sensor_present) is Some,
            r matches Err(e) ==> config_error(unit_count, ceiling, duration_ms, sensor_present) == Some(e),
            r matches Ok(c) ==> c.spec_stressor() == stressor && c.spec_unit_count() == unit_count
                && c.spec_ceiling() == ceiling && c.spec_duration_ms() == duration_ms,
    {
        if unit_count == 0 {
            Err(ConfigError::NoUnits)
        } else if ceiling.is_some() && duration_ms.is_none() && !sensor_present {
            Err(ConfigError::UnenforceableCeiling)
        } else {
            Ok(SessionConfig { stressor, unit_count, ceiling, duration_ms })
        }
    }

    pub fn stressor(&self) -> (r: Stressor)
        ensures
            r == self.spec_stressor(),
    {
        self.stressor
    }

    pub fn unit_count(&self) -> (r: usize)
        ensures
            r == self.spec_unit_count(),
    {
        self.unit_count
    }

    pub fn temperature_ceiling(&self) -> (r: Option<u8>)
        ensures
            r == self.spec_ceiling(),
    {
        self.ceiling
    }

    pub fn duration_ms(&self) -> (r: Option<u64>)
        ensures
            r == self.spec_duration_ms(),
    {
        self.duration_ms
    }
}


/// Why an answer to a setup question is refused.
#[derive(Clone, Copy, Debug, PartialEq, Eq, Structural)]
pub enum InputRejection {
    NothingSelected,
    ZeroDuration,
    ZeroCeiling,
    /// The host is already hotter than the ceiling asked for.
    CeilingBelowCurrent,
}

pub open spec fn rejection_message(r: InputRejection) -> Seq<char> {
    match r {
        InputRejection::NothingSelected => "This list is too small!"@,
        InputRejection::ZeroDuration => "Test cannot be 0 minutes"@,
        InputRejection::ZeroCeiling => "Temperature must not be 0"@,
        InputRejection::CeilingBelowCurrent => "The current temperature is higher than the temperature you want to stop at!"@,
    }
}

impl InputRejection {
    pub fn message(&self) -> (r: &'static str)
        ensures
            r@ == rejection_message(*self),
    {
        match self {
            InputRejection::NothingSelected => "This list is too small!",
            InputRejection::ZeroDuration => "Test cannot be 0 minutes",
            InputRejection::ZeroCeiling => "Temperature must not be 0",
            InputRejection::CeilingBelowCurrent => "The current temperature is higher than the temperature you want to stop at!",
        }
    }
}

/// At least one way to end the session must be chosen.
pub fn check_termination_selection(selected: usize) -> (r: Result<(), InputRejection>)
    ensures
        r == (if selected == 0 {
            Err::<(), InputRejection>(InputRejection::NothingSelected)
        } else {
            Ok::<(), InputRejection>(())
        }),
{
    if selected == 0 {
        Err(InputRejection::NothingSelected)
    } else {
        Ok(())
    }
}

/// A session cannot last zero minutes.
pub fn check_duration_minutes(minutes: u16) -> (r: Result<(), InputRejection>)
    ensures
        r == (if minutes == 0 {
            Err::<(), InputRejection>(InputRejection::ZeroDuration)
        } else {
            Ok::<(), InputRejection>(())
        }),
{
    if minutes == 0 {
        Err(InputRejection::ZeroDuration)
    } else {
        Ok(())
    }
}

/// A ceiling, in whole degrees Celsius, must be above zero and not below the
/// current temperature (in thousandths of a degree) when one is known.
pub fn check_ceiling(ceiling: u8, current: Option<i64>) -> (r: Result<(), InputRejection>)
    ensures
        r == (if ceiling == 0 {
            Err::<(), InputRejection>(InputRejection::ZeroCeiling)
        } else if current is Some && current.unwrap() > ceiling * 1000 {
            Err::<(), InputRejection>(InputRejection::CeilingBelowCurrent)
        } else {
            Ok::<(), InputRejection>(())
        }),
{
    if ceiling == 0 {
        return Err(InputRejection::ZeroCeiling);
    }
    match current {
        Some(t) if t > ceiling as i64 * 1000 => Err(InputRejection::CeilingBelowCurrent),
        _ => Ok(()),
    }
}

/// A duration given in minutes, in milliseconds.
pub fn duration_ms_from_minutes(minutes: u16) -> (r: u64)
    ensures
        r == minutes * 60_000,
{
    minutes as u64 * 60_000
}

} // verus!
