//! Resource limits of a worker and the reasons for which it stops.

use vstd::prelude::*;

verus! {

/// Limits that a worker runs under.
#[derive(Clone, Copy, Debug, PartialEq, Eq, Structural)]
pub struct RuntimeLimits {
    /// Initial size of the script heap, in megabytes.
    pub heap_initial_mb: usize,
    /// Largest size of the script heap, in megabytes.
    pub heap_max_mb: usize,
    /// CPU time, in milliseconds; zero switches the limit off.
    pub max_cpu_time_ms: u64,
    /// Wall-clock time, in milliseconds; zero switches the limit off.
    pub max_wall_clock_time_ms: u64,
    /// Number of chunks that a stream buffers.
    pub stream_buffer_size: usize,
}

/// Why the execution of a worker ended.
#[derive(Debug)]
pub enum TerminationReason {
    CpuTimeLimit,
    WallClockTimeout,
    MemoryLimit,
    Aborted,
    MaxIterationsReached,
    Exception(String),
    InitializationError(String),
    Other(String),
}

/// What a reason says, with its message as characters.
pub enum ReasonView {
    CpuTimeLimit,
    WallClockTimeout,
    MemoryLimit,
    Aborted,
    MaxIterationsReached,
    Exception(Seq<char>),
    InitializationError(Seq<char>),
    Other(Seq<char>),
}

impl View for TerminationReason {
    type V = ReasonView;

    open spec fn view(&self) -> ReasonView {
        match self {
            TerminationReason::CpuTimeLimit => ReasonView::CpuTimeLimit,
            TerminationReason::WallClockTimeout => ReasonView::WallClockTimeout,
            TerminationReason::MemoryLimit => ReasonView::MemoryLimit,
            TerminationReason::Aborted => ReasonView::Aborted,
            TerminationReason::MaxIterationsReached => ReasonView::MaxIterationsReached,
            TerminationReason::Exception(m) => ReasonView::Exception(m@),
            TerminationReason::InitializationError(m) => ReasonView::InitializationError(m@),
            TerminationReason::Other(m) => ReasonView::Other(m@),
        }
    }
}

/// What is seen of a reason is which one it is, and its message.
pub proof fn reasons_show_their_message(m: String)
    ensures
        TerminationReason::CpuTimeLimit@ == ReasonView::CpuTimeLimit,
        TerminationReason::WallClockTimeout@ == ReasonView::WallClockTimeout,
        TerminationReason::MemoryLimit@ == ReasonView::MemoryLimit,
        TerminationReason::Aborted@ == ReasonView::Aborted,
        TerminationReason::MaxIterationsReached@ == ReasonView::MaxIterationsReached,
        TerminationReason::Exception(m)@ == ReasonView::Exception(m@),
        TerminationReason::InitializationError(m)@ == ReasonView::InitializationError(m@),
        TerminationReason::Other(m)@ == ReasonView::Other(m@),
{
}

} // verus!
