//! Laws of a whole CPU session, over the monitor's decisions, the shared stop
//! cell and the report.

use vstd::prelude::*;
use crate::config::config_error;
use crate::monitor::next_state;
use crate::report::{all_joined, cpu_job, worker_total, lemma_worker_total_nonnegative};
use crate::stop::{StopState, reason_of, settle, settle_all, lemma_stop_is_final};
use crate::stressors::Stressor;
use crate::thermal::{ThermalSummary, summary_of};

verus! {

/// With neither a duration nor a temperature ceiling, only an outside
/// cancellation ends a session: the monitor never stops it by itself; once
/// cancelled, the cell keeps `UserCancelled` whatever is written later, every
/// worker sees a stopped state at its next check, and the report says
/// `User cancelled` and counts exactly the iterations the workers counted.
pub proof fn lemma_cancellation_ends_session(
    stressor: Stressor,
    outcomes: Seq<Option<u64>>,
    thermal: Option<ThermalSummary>,
    sample: Option<i64>,
    elapsed_ms: u64,
    later_writes: Seq<StopState>,
)
    requires
        1 <= outcomes.len() <= usize::MAX,
        all_joined(outcomes),
        worker_total(outcomes) <= u64::MAX,
    ensures
        next_state(StopState::Running, sample, elapsed_ms, None, None) == StopState::Running,
        settle(StopState::Running, StopState::UserCancelled) == StopState::UserCancelled,
        settle_all(StopState::UserCancelled, later_writes) == StopState::UserCancelled,
        next_state(StopState::UserCancelled, sample, elapsed_ms, None, None) == StopState::UserCancelled,
        cpu_job(stressor, outcomes, StopState::UserCancelled, thermal).stop_reason == "User cancelled"@,
        cpu_job(stressor, outcomes, StopState::UserCancelled, thermal).total_iterations == worker_total(
            outcomes,
        ),
        cpu_job(stressor, outcomes, StopState::UserCancelled, thermal).cpu_count == Some(
            outcomes.len() as usize,
        ),
{
    lemma_stop_is_final(StopState::UserCancelled, later_writes);
    lemma_worker_total_nonnegative(outcomes);
}

/// With a duration and no temperature ceiling, the monitor stops a running
/// session exactly when the elapsed time is beyond the duration, and then for
/// the time limit.
pub proof fn lemma_duration_stops_by_time(sample: Option<i64>, elapsed_ms: u64, duration_ms: u64)
    ensures
        next_state(StopState::Running, sample, elapsed_ms, None, Some(duration_ms)) != StopState::Running
            <==> elapsed_ms > duration_ms,
        elapsed_ms > duration_ms ==> next_state(StopState::Running, sample, elapsed_ms, None, Some(duration_ms))
            == StopState::TimeExceeded,
        reason_of(StopState::TimeExceeded) == Some("Time limit exceeded"@),
{
}

/// A sample above the ceiling stops a running session for temperature, even
/// when the duration runs out in the same tick; no later tick or write turns
/// that into a time-limit stop.
pub proof fn lemma_temperature_takes_precedence(
    t: i64,
    ceiling: u8,
    elapsed_ms: u64,
    duration_ms: u64,
    later_writes: Seq<StopState>,
)
    requires
        t > ceiling * 1000,
    ensures
        next_state(StopState::Running, Some(t), elapsed_ms, Some(ceiling), Some(duration_ms))
            == StopState::TemperatureExceeded,
        forall|s: Option<i64>, e: u64|
            #[trigger] next_state(StopState::TemperatureExceeded, s, e, Some(ceiling), Some(duration_ms))
                == StopState::TemperatureExceeded,
        settle_all(StopState::TemperatureExceeded, later_writes) == StopState::TemperatureExceeded,
        reason_of(StopState::TemperatureExceeded) == Some("Temperature exceeded"@),
{
    lemma_stop_is_final(StopState::TemperatureExceeded, later_writes);
}

/// On a host without a thermal sensor, a session whose only end is a
/// temperature ceiling is refused at setup; an accepted one has a duration,
/// the monitor stops it by time once that has elapsed, and its report carries
/// no temperatures at all.
pub proof fn lemma_sensorless_sessions_end(
    unit_count: usize,
    ceiling: u8,
    duration_ms: Option<u64>,
    elapsed_ms: u64,
)
    ensures
        duration_ms is None ==> config_error(unit_count, Some(ceiling), duration_ms, false) is Some,
        config_error(unit_count, Some(ceiling), duration_ms, false) is None ==> duration_ms is Some,
        duration_ms matches Some(d) && elapsed_ms > d ==> next_state(
            StopState::Running,
            None,
            elapsed_ms,
            Some(ceiling),
            duration_ms,
        ) == StopState::TimeExceeded,
        summary_of(Seq::<i64>::empty()) is None,
{
}

} // verus!
