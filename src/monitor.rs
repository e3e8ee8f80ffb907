use vstd::prelude::*;
use crate::config::SessionConfig;
use crate::stop::{StopState, arbitrate};
use crate::thermal::{ThermalStats, ThermalSummary, summary_of};

verus! {

/// Thousandths of a degree in one degree Celsius.
pub const MILLIDEGREES_PER_DEGREE: i64 = 1000;

/// A sample breaches the ceiling when it is strictly above it.
pub open spec fn temperature_breached(sample: Option<i64>, ceiling: Option<u8>) -> bool {
    &&& sample is Some
    &&& ceiling is Some
    &&& sample.unwrap() > ceiling.unwrap() * MILLIDEGREES_PER_DEGREE
}

/// The duration is breached once the elapsed time is strictly beyond it.
pub open spec fn time_breached(elapsed_ms: u64, duration_ms: Option<u64>) -> bool {
    duration_ms is Some && elapsed_ms > duration_ms.unwrap()
}

/// The stop state after one monitor tick that observed `observed` in the shared
/// cell, read `sample` from the sensor and measured `elapsed_ms`.
pub open spec fn next_state(
    observed: StopState,
    sample: Option<i64>,
    elapsed_ms: u64,
    ceiling: Option<u8>,
    duration_ms: Option<u64>,
) -> StopState {
    arbitrate(observed, temperature_breached(sample, ceiling), time_breached(elapsed_ms, duration_ms))
}

/// The decisions of the background monitor: it folds every temperature sample
/// into the session's aggregates and decides, tick by tick, whether a ceiling
/// has been breached.
pub struct Monitor {
    ceiling: Option<u8>,
    duration_ms: Option<u64>,
    thermal: ThermalStats,
}

impl Monitor {
    pub closed spec fn spec_ceiling(&self) -> Option<u8> {
        self.ceiling
    }

    pub closed spec fn spec_duration_ms(&self) -> Option<u64> {
        self.duration_ms
    }

    /// The temperature samples folded so far, oldest first.
    pub closed spec fn samples(&self) -> Seq<i64> {
        self.thermal@
    }

    /// A monitor for the session `config`, with no sample taken yet.
    pub fn new(config: &SessionConfig) -> (r: Monitor)
        ensures
            r.spec_ceiling() == config.spec_ceiling(),
            r.spec_duration_ms() == config.spec_duration_ms(),
            r.samples().len() == 0,
    {
        Monitor {
            ceiling: config.temperature_ceiling(),
            duration_ms: config.duration_ms(),
            thermal: ThermalStats::new(),
        }
    }

    /// One sampling tick. `observed` is what the shared cell held at the start
    /// of the tick; the result is what the monitor writes to it (the cell keeps
    /// the first write away from `Running`). A stopped session takes no sample.
    pub fn tick(&mut self, observed: StopState, sample: Option<i64>, elapsed_ms: u64) -> (r: StopState)
        requires
            old(self).samples().len() < u64::MAX,
        ensures
            r == next_state(observed, sample, elapsed_ms, old(self).spec_ceiling(), old(self).spec_duration_ms()),
            final(self).spec_ceiling() == old(self).spec_ceiling(),
            final(self).spec_duration_ms() == old(self).spec_duration_ms(),
            final(self).samples() == (if observed is Running && sample is Some {
                old(self).samples().push(sample.unwrap())
            } else {
                old(self).samples()
            }),
    {
        if !observed.is_running() {
            return observed;
        }
        let mut temperature_hit = false;
        if let Some(t) = sample {
            self.thermal.record(t);
            if let Some(c) = self.ceiling {
                temperature_hit = t > c as i64 * MILLIDEGREES_PER_DEGREE;
            }
        }
        if temperature_hit {
            return StopState::TemperatureExceeded;
        }
        match self.duration_ms {
            Some(d) if elapsed_ms > d => StopState::TimeExceeded,
            _ => StopState::Running,
        }
    }

    pub fn sample_count(&self) -> (r: u64)
        ensures
            r == self.samples().len(),
    {
        self.thermal.sample_count()
    }

    /// Minimum, mean and maximum of the samples taken; `None` when the host
    /// never reported a temperature.
    pub fn thermal_summary(&self) -> (r: Option<ThermalSummary>)
        ensures
            r == summary_of(self.samples()),
    {
        self.thermal.summary()
    }
}

} // verus!
