use vstd::prelude::*;
use vstd::string::StringExecFns;
use crate::stressors::Stressor;

verus! {

/// What a session can stress.
#[derive(Clone, Copy, Debug, PartialEq, Eq, Structural)]
pub enum Component {
    Cpu,
    Gpu,
}

/// How a CPU session may be told to end.
#[derive(Clone, Copy, Debug, PartialEq, Eq, Structural)]
pub enum TerminationMethod {
    Time,
    Temperature,
}

impl Component {
    pub fn label(&self) -> (r: &'static str)
        ensures
            r@ == (match *self {
                Component::Cpu => "CPU"@,
                Component::Gpu => "GPU"@,
            }),
    {
        match self {
            Component::Cpu => "CPU",
            Component::Gpu => "GPU",
        }
    }
}

impl TerminationMethod {
    pub fn label(&self) -> (r: &'static str)
        ensures
            r@ == (match *self {
                TerminationMethod::Time => "Time"@,
                TerminationMethod::Temperature => "Temperature"@,
            }),
    {
        match self {
            TerminationMethod::Time => "Time",
            TerminationMethod::Temperature => "Temperature",
        }
    }
}

/// The host's processor, as shown in the greeting.
pub struct CPUInformation {
    pub name: String,
    /// With simultaneous multithreading enabled this exceeds the physical count.
    pub logical_cores: usize,
    pub physical_cores: usize,
}

/// One GPU of the host: its name and, when known, its global memory in bytes.
#[derive(Default)]
pub struct GPUInformation {
    pub name: String,
    pub mem: Option<usize>,
}

/// Everything the greeting shows about the host.
pub struct GreetingValues {
    pub host_name: String,
    pub os: String,
    pub memory: u64,
    pub cpu_information: CPUInformation,
    pub gpu_information: Vec<GPUInformation>,
}

/// The text of an optional string, or `default` when it is absent.
pub open spec fn text_or(s: Option<String>, default: Seq<char>) -> Seq<char> {
    match s {
        Some(t) => t@,
        None => default,
    }
}

/// The operating-system line: the long OS name (or `N/A`), followed by
/// ` v` and the kernel version when the host reports one.
pub open spec fn os_line(os_long: Option<String>, kernel_version: Option<String>) -> Seq<char> {
    match kernel_version {
        Some(k) => text_or(os_long, "N/A"@) + " v"@ + k@,
        None => text_or(os_long, "N/A"@),
    }
}

impl CPUInformation {
    /// Falls back to the logical core count when the physical one is unknown.
    pub fn new(name: String, logical_cores: usize, physical_cores: Option<usize>) -> (r: CPUInformation)
        ensures
            r.name == name,
            r.logical_cores == logical_cores,
            r.physical_cores == (match physical_cores {
                Some(p) => p,
                None => logical_cores,
            }),
    {
        let physical_cores = match physical_cores {
            Some(p) => p,
            None => logical_cores,
        };
        CPUInformation { name, logical_cores, physical_cores }
    }
}

impl GPUInformation {
    /// A GPU whose name cannot be read is left out of the greeting.
    pub fn new(name: Option<String>, mem: Option<usize>) -> (r: Option<GPUInformation>)
        ensures
            r is Some <==> name is Some,
            r matches Some(g) ==> g.name == name.unwrap() && g.mem == mem,
    {
        match name {
            Some(name) => Some(GPUInformation { name, mem }),
            None => None,
        }
    }
}

impl GreetingValues {
    /// The greeting for a host named `host_name` (`User` when unknown).
    pub fn new(
        host_name: Option<String>,
        os_long: Option<String>,
        kernel_version: Option<String>,
        memory: u64,
        cpu_information: CPUInformation,
        gpu_information: Vec<GPUInformation>,
    ) -> (r: GreetingValues)
        ensures
            r.host_name@ == text_or(host_name, "User"@),
            r.os@ == os_line(os_long, kernel_version),
            r.memory == memory,
            r.cpu_information == cpu_information,
            r.gpu_information == gpu_information,
    {
        let host_name = match host_name {
            Some(h) => h,
            None => String::from_str("User"),
        };
        let mut os = match os_long {
            Some(o) => o,
            None => String::from_str("N/A"),
        };
        if let Some(k) = kernel_version {
            os.append(" v");
            os.append(k.as_str());
        }
        GreetingValues { host_name, os, memory, cpu_information, gpu_information }
    }
}

/// The components offered for stressing: the CPU always, the GPU when the
/// host has one.
pub fn get_stressed_components(sys_info: &GreetingValues) -> (r: Vec<Component>)
    ensures
        r@ == (if sys_info.gpu_information@.len() == 0 {
            seq![Component::Cpu]
        } else {
            seq![Component::Cpu, Component::Gpu]
        }),
{
    if sys_info.gpu_information.len() == 0 {
        vec![Component::Cpu]
    } else {
        vec![Component::Cpu, Component::Gpu]
    }
}

/// The workloads offered for a component. The inverse square root uses an
/// x86-64 instruction and is offered only there.
pub open spec fn stressors_for(choice: Component, x86_64: bool) -> Seq<Stressor> {
    match choice {
        Component::Cpu => if x86_64 {
            seq![
                Stressor::Fibonacci,
                Stressor::FloatAddition,
                Stressor::FloatMultiplication,
                Stressor::MatrixMultiplication,
                Stressor::SquareRoot,
                Stressor::Primes,
                Stressor::InverseSquareRoot,
                Stressor::FloatDivision,
            ]
        } else {
            seq![
                Stressor::Fibonacci,
                Stressor::FloatAddition,
                Stressor::FloatMultiplication,
                Stressor::MatrixMultiplication,
                Stressor::SquareRoot,
                Stressor::Primes,
                Stressor::FloatDivision,
            ]
        },
        Component::Gpu => seq![Stressor::SquareRoot, Stressor::MatrixMultiplication, Stressor::FloatAddition],
    }
}

pub fn get_stressors(choice: Component, x86_64: bool) -> (r: Vec<Stressor>)
    ensures
        r@ == stressors_for(choice, x86_64),
{
    let r = match choice {
        Component::Cpu => if x86_64 {
            vec![
                Stressor::Fibonacci,
                Stressor::FloatAddition,
                Stressor::FloatMultiplication,
                Stressor::MatrixMultiplication,
                Stressor::SquareRoot,
                Stressor::Primes,
                Stressor::InverseSquareRoot,
                Stressor::FloatDivision,
            ]
        } else {
            vec![
                Stressor::Fibonacci,
                Stressor::FloatAddition,
                Stressor::FloatMultiplication,
                Stressor::MatrixMultiplication,
                Stressor::SquareRoot,
                Stressor::Primes,
                Stressor::FloatDivision,
            ]
        },
        Component::Gpu => vec![Stressor::SquareRoot, Stressor::MatrixMultiplication, Stressor::FloatAddition],
    };
    assert(r@ =~= stressors_for(choice, x86_64));
    r
}

/// The ways a session may end: always by time, and by temperature only for a
/// CPU session on a host with a thermal sensor.
pub fn get_termination_options(choice: Component, sensor_present: bool) -> (r: Vec<TerminationMethod>)
    ensures
        r@ == (if choice == Component::Cpu && sensor_present {
            seq![TerminationMethod::Time, TerminationMethod::Temperature]
        } else {
            seq![TerminationMethod::Time]
        }),
{
    let r = if choice == Component::Cpu && sensor_present {
        vec![TerminationMethod::Time, TerminationMethod::Temperature]
    } else {
        vec![TerminationMethod::Time]
    };
    assert(r@ =~= (if choice == Component::Cpu && sensor_present {
        seq![TerminationMethod::Time, TerminationMethod::Temperature]
    } else {
        seq![TerminationMethod::Time]
    }));
    r
}

/// The worker counts offered for a CPU session: one up to the number of
/// logical cores.
pub fn unit_count_options(logical_cores: usize) -> (r: Vec<usize>)
    ensures
        r@.len() == logical_cores,
        forall|i: int| 0 <= i < logical_cores ==> #[trigger] r@[i] == i + 1,
{
    let mut r: Vec<usize> = Vec::new();
    let mut n: usize = 0;
    while n < logical_cores
        invariant
            n <= logical_cores,
            r@.len() == n,
            forall|i: int| 0 <= i < n ==> #[trigger] r@[i] == i + 1,
        decreases logical_cores - n,
    {
        n = n + 1;
        r.push(n);
    }
    r
}

/// How the GPU platform is picked from the platforms the host offers.
#[derive(Clone, Copy, Debug, PartialEq, Eq, Structural)]
pub enum PlatformChoice {
    /// There is none: GPU stressing is unavailable.
    Unavailable,
    /// There is exactly one, which is taken.
    Only,
    /// There are several: the user picks one.
    Ask,
}

pub fn platform_choice(platform_count: usize) -> (r: PlatformChoice)
    ensures
        r == (if platform_count == 0 {
            PlatformChoice::Unavailable
        } else if platform_count == 1 {
            PlatformChoice::Only
        } else {
            PlatformChoice::Ask
        }),
{
    if platform_count == 0 {
        PlatformChoice::Unavailable
    } else if platform_count == 1 {
        PlatformChoice::Only
    } else {
        PlatformChoice::Ask
    }
}


/// A byte count in whole mebibytes, as the greeting shows memory sizes.
pub fn megabytes(bytes: u64) -> (r: u64)
    ensures
        r == bytes / 1_048_576u64,
{
    bytes / 1024 / 1024
}

/// The position of the first name equal to `wanted`; `None` when no name is.
pub fn position_of_name(names: &Vec<String>, wanted: &String) -> (r: Option<usize>)
    ensures
        r matches Some(i) ==> i < names@.len() && names@[i as int]@ == wanted@
            && forall|j: int| 0 <= j < i ==> (#[trigger] names@[j])@ != wanted@,
        r is None ==> forall|j: int| 0 <= j < names@.len() ==> (#[trigger] names@[j])@ != wanted@,
{
    let mut i: usize = 0;
    while i < names.len()
        invariant
            i <= names@.len(),
            forall|j: int| 0 <= j < i ==> (#[trigger] names@[j])@ != wanted@,
        decreases names@.len() - i,
    {
        if names[i] == *wanted {
            return Some(i);
        }
        i = i + 1;
    }
    None
}

} // verus!
