use vstd::prelude::*;
use crate::monitor::time_breached;
use crate::report::{Job, gpu_job};
use crate::stressors::Stressor;

verus! {

/// Length of every buffer bound to a kernel, whatever the workload.
pub const OPENCL_VECTOR_SIZE: usize = 10_000;

/// The kernels a GPU session can run.
#[derive(Clone, Copy, Debug, PartialEq, Eq, Structural)]
pub enum GpuKernel {
    SquareRoot,
    FloatAddition,
    MatrixMultiplication,
}

/// The kernel that runs a workload on the GPU; workloads without a kernel of
/// their own fall back to the square root.
pub open spec fn kernel_for(s: Stressor) -> GpuKernel {
    match s {
        Stressor::FloatAddition => GpuKernel::FloatAddition,
        Stressor::MatrixMultiplication => GpuKernel::MatrixMultiplication,
        _ => GpuKernel::SquareRoot,
    }
}

/// Number of buffers bound as kernel arguments: two for a unary transform,
/// three for a kernel with two inputs.
pub open spec fn arg_count_of(k: GpuKernel) -> usize {
    match k {
        GpuKernel::MatrixMultiplication => 3,
        _ => 2,
    }
}

pub open spec fn kernel_name_of(k: GpuKernel) -> Seq<char> {
    match k {
        GpuKernel::SquareRoot => "sqrt"@,
        GpuKernel::FloatAddition => "float_add"@,
        GpuKernel::MatrixMultiplication => "matrix_mult"@,
    }
}

impl GpuKernel {
    pub fn for_stressor(s: Stressor) -> (r: GpuKernel)
        ensures
            r == kernel_for(s),
    {
        match s {
            Stressor::FloatAddition => GpuKernel::FloatAddition,
            Stressor::MatrixMultiplication => GpuKernel::MatrixMultiplication,
            _ => GpuKernel::SquareRoot,
        }
    }

    pub fn arg_count(&self) -> (r: usize)
        ensures
            r == arg_count_of(*self),
    {
        match self {
            GpuKernel::MatrixMultiplication => 3,
            _ => 2,
        }
    }

    /// The name of the kernel function in its OpenCL source.
    pub fn kernel_name(&self) -> (r: &'static str)
        ensures
            r@ == kernel_name_of(*self),
    {
        match self {
            GpuKernel::SquareRoot => "sqrt",
            GpuKernel::FloatAddition => "float_add",
            GpuKernel::MatrixMultiplication => "matrix_mult",
        }
    }
}

/// The global work size of a launch, from the device's maximum work-item size
/// in each dimension: each dimension is the device's maximum, never more.
/// `None` when the device reports fewer than three dimensions.
pub fn execution_geometry(max_sizes: &Vec<usize>) -> (r: Option<(usize, usize, usize)>)
    ensures
        r is Some <==> max_sizes@.len() >= 3,
        r matches Some(g) ==> g.0 == max_sizes@[0] && g.1 == max_sizes@[1] && g.2 == max_sizes@[2],
{
    if max_sizes.len() < 3 {
        None
    } else {
        Some((max_sizes[0], max_sizes[1], max_sizes[2]))
    }
}

/// Where a GPU session stands in its lifecycle.
#[derive(Clone, Copy, Debug, PartialEq, Eq, Structural)]
pub enum DevicePhase {
    Uninitialized,
    ContextReady,
    KernelBound,
    Running,
    Stopped,
    /// No device context could be had: the GPU path is unavailable.
    Unavailable,
    /// The kernel could not be bound or did not run: the session ended
    /// without entering its timed loop.
    Aborted,
}

/// Why a GPU session ended without a report.
#[derive(Clone, Copy, Debug, PartialEq, Eq, Structural)]
pub enum DeviceError {
    ContextUnavailable,
    KernelUnavailable,
    WorkloadUnsupported,
}

pub open spec fn device_message(e: DeviceError) -> Seq<char> {
    match e {
        DeviceError::ContextUnavailable => "GPU context unavailable"@,
        DeviceError::KernelUnavailable => "GPU kernel could not be built"@,
        DeviceError::WorkloadUnsupported => "workload does not run on this device"@,
    }
}

impl DeviceError {
    pub fn message(&self) -> (r: &'static str)
        ensures
            r@ == device_message(*self),
    {
        match self {
            DeviceError::ContextUnavailable => "GPU context unavailable",
            DeviceError::KernelUnavailable => "GPU kernel could not be built",
            DeviceError::WorkloadUnsupported => "workload does not run on this device",
        }
    }
}

/// The decisions of a GPU session, driven one event at a time by the thread
/// that talks to the device: context, kernel, one validation launch, then
/// launches until the optional duration has elapsed.
pub struct DeviceSession {
    stressor: Stressor,
    duration_ms: Option<u64>,
    phase: DevicePhase,
    iterations: u64,
    failing: bool,
}

impl DeviceSession {
    pub closed spec fn spec_stressor(&self) -> Stressor {
        self.stressor
    }

    pub closed spec fn spec_duration_ms(&self) -> Option<u64> {
        self.duration_ms
    }

    pub closed spec fn spec_phase(&self) -> DevicePhase {
        self.phase
    }

    /// Successful launches in the timed loop so far.
    pub closed spec fn spec_iterations(&self) -> u64 {
        self.iterations
    }

    /// Whether the last launch failed.
    pub closed spec fn spec_failing(&self) -> bool {
        self.failing
    }

    pub fn new(stressor: Stressor, duration_ms: Option<u64>) -> (r: DeviceSession)
        ensures
            r.spec_stressor() == stressor,
            r.spec_duration_ms() == duration_ms,
            r.spec_phase() == DevicePhase::Uninitialized,
            r.spec_iterations() == 0,
            !r.spec_failing(),
    {
        DeviceSession { stressor, duration_ms, phase: DevicePhase::Uninitialized, iterations: 0, failing: false }
    }

    /// The kernel this session runs.
    pub fn kernel(&self) -> (r: GpuKernel)
        ensures
            r == kernel_for(self.spec_stressor()),
    {
        GpuKernel::for_stressor(self.stressor)
    }

    pub fn phase(&self) -> (r: DevicePhase)
        ensures
            r == self.spec_phase(),
    {
        self.phase
    }

    pub fn iterations(&self) -> (r: u64)
        ensures
            r == self.spec_iterations(),
    {
        self.iterations
    }

    /// A device context and command queue were, or could not be, built. Without
    /// one the GPU path degrades to unavailable; nothing is retried.
    pub fn context_built(&mut self, built: bool) -> (r: Result<(), DeviceError>)
        requires
            old(self).spec_phase() == DevicePhase::Uninitialized,
        ensures
            built ==> r is Ok && final(self).spec_phase() == DevicePhase::ContextReady,
            !built ==> r == Err::<(), DeviceError>(DeviceError::ContextUnavailable)
                && final(self).spec_phase() == DevicePhase::Unavailable,
            final(self).spec_stressor() == old(self).spec_stressor(),
            final(self).spec_duration_ms() == old(self).spec_duration_ms(),
            final(self).spec_iterations() == old(self).spec_iterations(),
            final(self).spec_failing() == old(self).spec_failing(),
    {
        if built {
            self.phase = DevicePhase::ContextReady;
            Ok(())
        } else {
            self.phase = DevicePhase::Unavailable;
            Err(DeviceError::ContextUnavailable)
        }
    }

    /// The kernel was, or could not be, compiled and bound to its buffers.
    pub fn kernel_bound(&mut self, bound: bool) -> (r: Result<(), DeviceError>)
        requires
            old(self).spec_phase() == DevicePhase::ContextReady,
        ensures
            bound ==> r is Ok && final(self).spec_phase() == DevicePhase::KernelBound,
            !bound ==> r == Err::<(), DeviceError>(DeviceError::KernelUnavailable)
                && final(self).spec_phase() == DevicePhase::Aborted,
            final(self).spec_stressor() == old(self).spec_stressor(),
            final(self).spec_duration_ms() == old(self).spec_duration_ms(),
            final(self).spec_iterations() == old(self).spec_iterations(),
            final(self).spec_failing() == old(self).spec_failing(),
    {
        if bound {
            self.phase = DevicePhase::KernelBound;
            Ok(())
        } else {
            self.phase = DevicePhase::Aborted;
            Err(DeviceError::KernelUnavailable)
        }
    }

    /// The one validation launch before the timed loop did, or did not, run.
    /// If it failed the session aborts without entering the loop.
    pub fn validated(&mut self, ran: bool) -> (r: Result<(), DeviceError>)
        requires
            old(self).spec_phase() == DevicePhase::KernelBound,
        ensures
            ran ==> r is Ok && final(self).spec_phase() == DevicePhase::Running,
            !ran ==> r == Err::<(), DeviceError>(DeviceError::WorkloadUnsupported)
                && final(self).spec_phase() == DevicePhase::Aborted,
            final(self).spec_stressor() == old(self).spec_stressor(),
            final(self).spec_duration_ms() == old(self).spec_duration_ms(),
            final(self).spec_iterations() == old(self).spec_iterations(),
            final(self).spec_failing() == old(self).spec_failing(),
    {
        if ran {
            self.phase = DevicePhase::Running;
            Ok(())
        } else {
            self.phase = DevicePhase::Aborted;
            Err(DeviceError::WorkloadUnsupported)
        }
    }

    /// Decides, before each launch, whether the loop goes on after
    /// `elapsed_ms`: it stops once the configured duration has elapsed and never
    /// stops by itself without one.
    pub fn keep_running(&mut self, elapsed_ms: u64) -> (r: bool)
        requires
            old(self).spec_phase() == DevicePhase::Running,
        ensures
            r == !time_breached(elapsed_ms, old(self).spec_duration_ms()),
            final(self).spec_phase() == (if r { DevicePhase::Running } else { DevicePhase::Stopped }),
            final(self).spec_stressor() == old(self).spec_stressor(),
            final(self).spec_duration_ms() == old(self).spec_duration_ms(),
            final(self).spec_iterations() == old(self).spec_iterations(),
            final(self).spec_failing() == old(self).spec_failing(),
    {
        let go_on = match self.duration_ms {
            Some(d) => elapsed_ms <= d,
            None => true,
        };
        if !go_on {
            self.phase = DevicePhase::Stopped;
        }
        go_on
    }

    /// Records one launch of the timed loop. A failed launch is skipped, not
    /// counted and not fatal. The result says whether to log the failure: only
    /// the first of a run of consecutive failures is logged.
    pub fn launched(&mut self, ok: bool) -> (log: bool)
        requires
            old(self).spec_phase() == DevicePhase::Running,
            old(self).spec_iterations() < u64::MAX,
        ensures
            final(self).spec_iterations() == old(self).spec_iterations() + (if ok { 1int } else { 0int }),
            final(self).spec_failing() == !ok,
            log == (!ok && !old(self).spec_failing()),
            final(self).spec_phase() == old(self).spec_phase(),
            final(self).spec_stressor() == old(self).spec_stressor(),
            final(self).spec_duration_ms() == old(self).spec_duration_ms(),
    {
        let log = !ok && !self.failing;
        if ok {
            self.iterations = self.iterations + 1;
        }
        self.failing = !ok;
        log
    }

    /// The report of a session whose timed loop has ended.
    pub fn report(&self) -> (r: Job)
        requires
            self.spec_phase() == DevicePhase::Stopped,
        ensures
            r@ == gpu_job(self.spec_stressor(), self.spec_iterations()),
    {
        Job::gpu(self.stressor, self.iterations)
    }
}

} // verus!
