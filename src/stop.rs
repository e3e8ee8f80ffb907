use vstd::prelude::*;

verus! {

/// Why and whether a session has ended. Every worker reads it; it leaves
/// `Running` exactly once and never changes afterwards.
#[derive(Clone, Copy, Debug, PartialEq, Eq, Structural)]
pub enum StopState {
    Running,
    TimeExceeded,
    TemperatureExceeded,
    UserCancelled,
}

/// The integer code that the shared cell holds for each state.
pub open spec fn code_of(s: StopState) -> u8 {
    match s {
        StopState::Running => 0,
        StopState::TimeExceeded => 1,
        StopState::TemperatureExceeded => 2,
        StopState::UserCancelled => 3,
    }
}

/// The human-readable stop reason of a finished session; none while running.
pub open spec fn reason_of(s: StopState) -> Option<Seq<char>> {
    match s {
        StopState::Running => None,
        StopState::TimeExceeded => Some("Time limit exceeded"@),
        StopState::TemperatureExceeded => Some("Temperature exceeded"@),
        StopState::UserCancelled => Some("User cancelled"@),
    }
}

/// The value a write of `requested` leaves in the cell that holds `current`:
/// only the first write away from `Running` takes effect.
pub open spec fn settle(current: StopState, requested: StopState) -> StopState {
    if current is Running {
        requested
    } else {
        current
    }
}

/// The stop decision of one monitor tick: the temperature ceiling is checked
/// before the duration, and an earlier stop is never overwritten.
pub open spec fn arbitrate(current: StopState, temperature_breached: bool, time_breached: bool) -> StopState {
    if !(current is Running) {
        current
    } else if temperature_breached {
        StopState::TemperatureExceeded
    } else if time_breached {
        StopState::TimeExceeded
    } else {
        StopState::Running
    }
}

/// The cell's value after the writes `requests`, in order, starting from `start`.
pub open spec fn settle_all(start: StopState, requests: Seq<StopState>) -> StopState
    decreases requests.len(),
{
    if requests.len() == 0 {
        start
    } else {
        settle(settle_all(start, requests.drop_last()), requests.last())
    }
}

/// Index of the first write in `requests` that leaves `Running`, or
/// `requests.len()` when there is none.
pub open spec fn first_stop_index(requests: Seq<StopState>) -> int
    decreases requests.len(),
{
    if requests.len() == 0 {
        0
    } else if first_stop_index(requests.drop_last()) < requests.len() - 1 {
        first_stop_index(requests.drop_last())
    } else if requests.last() is Running {
        requests.len() as int
    } else {
        requests.len() - 1
    }
}

impl StopState {
    /// The code of this state in the shared cell.
    pub fn code(&self) -> (r: u8)
        ensures
            r == code_of(*self),
    {
        match self {
            StopState::Running => 0,
            StopState::TimeExceeded => 1,
            StopState::TemperatureExceeded => 2,
            StopState::UserCancelled => 3,
        }
    }

    /// The state a cell code stands for; `None` for a code no state has.
    pub fn from_code(code: usize) -> (r: Option<StopState>)
        ensures
            r.is_some() <==> code <= 3,
            r matches Some(s) ==> code_of(s) == code,
    {
        match code {
            0 => Some(StopState::Running),
            1 => Some(StopState::TimeExceeded),
            2 => Some(StopState::TemperatureExceeded),
            3 => Some(StopState::UserCancelled),
            _ => None,
        }
    }

    pub fn is_running(&self) -> (r: bool)
        ensures
            r == (*self is Running),
    {
        match self {
            StopState::Running => true,
            _ => false,
        }
    }

    /// The stop reason shown in a report.
    pub fn reason(&self) -> (r: Option<&'static str>)
        ensures
            r.is_some() == reason_of(*self).is_some(),
            r matches Some(text) ==> text@ == reason_of(*self).unwrap(),
    {
        match self {
            StopState::Running => None,
            StopState::TimeExceeded => Some("Time limit exceeded"),
            StopState::TemperatureExceeded => Some("Temperature exceeded"),
            StopState::UserCancelled => Some("User cancelled"),
        }
    }

    /// The value the cell holds after `requested` is written to it.
    pub fn settle(self, requested: StopState) -> (r: StopState)
        ensures
            r == settle(self, requested),
    {
        if self.is_running() {
            requested
        } else {
            self
        }
    }
}

/// Once the cell has left `Running`, no later write changes it.
pub proof fn lemma_stop_is_final(start: StopState, requests: Seq<StopState>)
    requires
        !(start is Running),
    ensures
        settle_all(start, requests) == start,
    decreases requests.len(),
{
    if requests.len() > 0 {
        lemma_stop_is_final(start, requests.drop_last());
    }
}

/// Starting from `Running`, the cell ends up holding the first write that left
/// `Running`, whatever was written after it: the transition happens exactly once
/// and the first writer wins.
pub proof fn lemma_first_writer_wins(requests: Seq<StopState>)
    ensures
        0 <= first_stop_index(requests) <= requests.len(),
        forall|i: int| 0 <= i < first_stop_index(requests) ==> (#[trigger] requests[i]) is Running,
        first_stop_index(requests) < requests.len() ==> !(requests[first_stop_index(requests)] is Running),
        first_stop_index(requests) == requests.len() ==> settle_all(StopState::Running, requests) is Running,
        first_stop_index(requests) < requests.len() ==> settle_all(StopState::Running, requests)
            == requests[first_stop_index(requests)],
    decreases requests.len(),
{
    if requests.len() > 0 {
        let prefix = requests.drop_last();
        lemma_first_writer_wins(prefix);
        assert forall|i: int| 0 <= i < first_stop_index(requests) implies (#[trigger] requests[i]) is Running by {
            if i < prefix.len() {
                assert(requests[i] == prefix[i]);
            }
        }
        if first_stop_index(prefix) < prefix.len() {
            assert(requests[first_stop_index(prefix)] == prefix[first_stop_index(prefix)]);
        }
    }
}

} // verus!
