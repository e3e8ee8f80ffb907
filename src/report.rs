use vstd::prelude::*;
use vstd::string::StringExecFns;
use crate::stop::{StopState, reason_of};
use crate::stressors::{Stressor, stressor_name};
use crate::thermal::ThermalSummary;

verus! {

/// Why a CPU session ended without a report.
#[derive(Clone, Copy, Debug, PartialEq, Eq, Structural)]
pub enum SessionError {
    /// A worker thread could not be joined.
    WorkerLost,
    /// The workers' iterations together do not fit in a `u64`.
    IterationOverflow,
}

/// The contents of a session report.
pub struct JobView {
    pub name: Seq<char>,
    pub total_iterations: u64,
    pub cpu_count: Option<usize>,
    pub thermal: Option<ThermalSummary>,
    pub stop_reason: Seq<char>,
}

/// The final, immutable report of one session.
pub struct Job {
    name: String,
    total_iterations: u64,
    cpu_count: Option<usize>,
    thermal: Option<ThermalSummary>,
    stop_reason: String,
}

impl View for Job {
    type V = JobView;

    closed spec fn view(&self) -> JobView {
        JobView {
            name: self.name@,
            total_iterations: self.total_iterations,
            cpu_count: self.cpu_count,
            thermal: self.thermal,
            stop_reason: self.stop_reason@,
        }
    }
}

/// Whether every worker handed back its iteration count.
pub open spec fn all_joined(outcomes: Seq<Option<u64>>) -> bool {
    forall|i: int| 0 <= i < outcomes.len() ==> (#[trigger] outcomes[i]) is Some
}

/// The sum of the iteration counts the workers handed back.
pub open spec fn worker_total(outcomes: Seq<Option<u64>>) -> int
    decreases outcomes.len(),
{
    if outcomes.len() == 0 {
        0
    } else {
        worker_total(outcomes.drop_last()) + match outcomes.last() {
            Some(n) => n as int,
            None => 0,
        }
    }
}

pub proof fn lemma_worker_total_nonnegative(outcomes: Seq<Option<u64>>)
    ensures
        worker_total(outcomes) >= 0,
    decreases outcomes.len(),
{
    if outcomes.len() > 0 {
        lemma_worker_total_nonnegative(outcomes.drop_last());
    }
}

/// The report of a CPU session whose workers all joined and whose total fits.
pub open spec fn cpu_job(
    stressor: Stressor,
    outcomes: Seq<Option<u64>>,
    final_state: StopState,
    thermal: Option<ThermalSummary>,
) -> JobView {
    JobView {
        name: stressor_name(stressor),
        total_iterations: worker_total(outcomes) as u64,
        cpu_count: Some(outcomes.len() as usize),
        thermal,
        stop_reason: reason_of(final_state).unwrap(),
    }
}

/// The report of a GPU session.
pub open spec fn gpu_job(stressor: Stressor, total_iterations: u64) -> JobView {
    JobView {
        name: stressor_name(stressor),
        total_iterations,
        cpu_count: None,
        thermal: None,
        stop_reason: reason_of(StopState::TimeExceeded).unwrap(),
    }
}

impl Job {
    /// Reconciles a finished CPU session: one outcome per worker (`None` for a
    /// worker that could not be joined), the final stop state and the monitor's
    /// thermal summary.
    pub fn cpu(
        stressor: Stressor,
        outcomes: &Vec<Option<u64>>,
        final_state: StopState,
        thermal: Option<ThermalSummary>,
    ) -> (r: Result<Job, SessionError>)
        requires
            !(final_state is Running),
        ensures
            r == Err::<Job, SessionError>(SessionError::WorkerLost) <==> !all_joined(outcomes@),
            r == Err::<Job, SessionError>(SessionError::IterationOverflow) <==> all_joined(outcomes@)
                && worker_total(outcomes@) > u64::MAX,
            r matches Ok(job) ==> job@ == cpu_job(stressor, outcomes@, final_state, thermal),
    {
        let mut total: u128 = 0;
        let mut i: usize = 0;
        while i < outcomes.len()
            invariant
                0 <= i <= outcomes@.len(),
                total == worker_total(outcomes@.subrange(0, i as int)),
                total <= i * u64::MAX,
                forall|j: int| 0 <= j < i ==> (#[trigger] outcomes@[j]) is Some,
            decreases outcomes@.len() - i,
        {
            assert(outcomes@.subrange(0, i + 1).drop_last() =~= outcomes@.subrange(0, i as int));
            match outcomes[i] {
                Some(n) => {
                    total = total + n as u128;
                },
                None => {
                    return Err(SessionError::WorkerLost);
                },
            }
            i = i + 1;
        }
        assert(outcomes@.subrange(0, outcomes@.len() as int) =~= outcomes@);
        if total > u64::MAX as u128 {
            return Err(SessionError::IterationOverflow);
        }
        let reason = final_state.reason().unwrap();
        Ok(
            Job {
                name: String::from_str(stressor.name()),
                total_iterations: total as u64,
                cpu_count: Some(outcomes.len()),
                thermal,
                stop_reason: String::from_str(reason),
            },
        )
    }

    /// The report of a GPU session that ran `total_iterations` kernel launches
    /// until its duration ran out.
    pub fn gpu(stressor: Stressor, total_iterations: u64) -> (r: Job)
        ensures
            r@ == gpu_job(stressor, total_iterations),
    {
        let reason = StopState::TimeExceeded.reason().unwrap();
        Job {
            name: String::from_str(stressor.name()),
            total_iterations,
            cpu_count: None,
            thermal: None,
            stop_reason: String::from_str(reason),
        }
    }

    pub fn name(&self) -> (r: &str)
        ensures
            r@ == self@.name,
    {
        self.name.as_str()
    }

    pub fn total_iterations(&self) -> (r: u64)
        ensures
            r == self@.total_iterations,
    {
        self.total_iterations
    }

    /// The number of worker threads; `None` for a GPU session.
    pub fn cpu_count(&self) -> (r: Option<usize>)
        ensures
            r == self@.cpu_count,
    {
        self.cpu_count
    }

    /// Minimum, mean and maximum CPU temperature; `None` when none was sampled.
    pub fn thermal(&self) -> (r: Option<ThermalSummary>)
        ensures
            r == self@.thermal,
    {
        self.thermal
    }

    pub fn stop_reason(&self) -> (r: &str)
        ensures
            r@ == self@.stop_reason,
    {
        self.stop_reason.as_str()
    }
}

/// Building a report is a pure aggregation: two reports built from the same
/// worker outcomes, stop state and thermal summary are identical.
pub proof fn lemma_report_is_pure(
    stressor: Stressor,
    outcomes: Seq<Option<u64>>,
    final_state: StopState,
    thermal: Option<ThermalSummary>,
    first: Job,
    second: Job,
)
    requires
        first@ == cpu_job(stressor, outcomes, final_state, thermal),
        second@ == cpu_job(stressor, outcomes, final_state, thermal),
    ensures
        first@ == second@,
        first@.name == second@.name,
        first@.stop_reason == second@.stop_reason,
{
}


/// The character of a decimal digit.
pub open spec fn digit_char(d: int) -> char {
    seq!['0', '1', '2', '3', '4', '5', '6', '7', '8', '9'][d]
}

/// The decimal notation of `n`, without leading zeros.
pub open spec fn decimal(n: nat) -> Seq<char>
    decreases n,
{
    if n < 10 {
        seq![digit_char(n as int)]
    } else {
        decimal(n / 10).push(digit_char((n % 10) as int))
    }
}

/// The decimal notation of `n` with a comma between each group of three
/// digits, counted from the right.
pub open spec fn grouped_decimal(n: nat) -> Seq<char>
    decreases n,
{
    if n < 1000 {
        decimal(n)
    } else {
        grouped_decimal(n / 1000) + seq![','] + seq![
            digit_char((n % 1000 / 100) as int),
            digit_char((n % 100 / 10) as int),
            digit_char((n % 10) as int),
        ]
    }
}

fn push_digit(s: &mut String, d: u64)
    requires
        d < 10,
    ensures
        final(s)@ == old(s)@.push(digit_char(d as int)),
{
    let text = match d {
        0 => "0",
        1 => "1",
        2 => "2",
        3 => "3",
        4 => "4",
        5 => "5",
        6 => "6",
        7 => "7",
        8 => "8",
        _ => "9",
    };
    proof {
        reveal_strlit("0");
        reveal_strlit("1");
        reveal_strlit("2");
        reveal_strlit("3");
        reveal_strlit("4");
        reveal_strlit("5");
        reveal_strlit("6");
        reveal_strlit("7");
        reveal_strlit("8");
        reveal_strlit("9");
    }
    s.append(text);
}

fn push_below_thousand(s: &mut String, n: u64)
    requires
        n < 1000,
    ensures
        final(s)@ == old(s)@ + decimal(n as nat),
{
    let ghost start = s@;
    if n >= 100 {
        assert(decimal(n as nat) == decimal((n / 10) as nat).push(digit_char((n % 10) as int)));
        assert(decimal((n / 10) as nat) == decimal((n / 100) as nat).push(digit_char((n / 10 % 10) as int)));
        push_digit(s, n / 100);
        push_digit(s, n / 10 % 10);
    } else if n >= 10 {
        assert(decimal(n as nat) == decimal((n / 10) as nat).push(digit_char((n % 10) as int)));
        push_digit(s, n / 10);
    }
    push_digit(s, n % 10);
    assert(s@ =~= start + decimal(n as nat));
}

/// Formats an iteration count with thousands separators: `1234567` becomes
/// `1,234,567`.
pub fn pretty_print_int(i: u64) -> (r: String)
    ensures
        r@ == grouped_decimal(i as nat),
    decreases i,
{
    if i < 1000 {
        let mut s = String::new();
        push_below_thousand(&mut s, i);
        s
    } else {
        let mut s = pretty_print_int(i / 1000);
        let ghost head = s@;
        proof {
            reveal_strlit(",");
        }
        s.append(",");
        push_digit(&mut s, i % 1000 / 100);
        push_digit(&mut s, i % 100 / 10);
        push_digit(&mut s, i % 10);
        assert(s@ =~= grouped_decimal(i as nat));
        s
    }
}

} // verus!
