//! The life of a worker: what it is built from, what it is handed, and why it stops.

use std::collections::HashMap;

use serde_json::Value;
use tokio::sync::oneshot;
use vstd::prelude::*;

use crate::env::BindingInfo;
use crate::evaluation::{evaluation_failed, evaluation_failure, WorkerCode};
use crate::limits::{ReasonView, RuntimeLimits, TerminationReason};
use crate::operations::HttpRequest;
use crate::task::HttpResponse;
use crate::text::{concat2, contains_text, occurs_in};

verus! {

/// The script of a worker.
pub struct Script {
    pub code: WorkerCode,
    /// The variables of its environment.
    pub env: Option<HashMap<String, String>>,
    /// The bindings of its environment.
    pub bindings: Vec<BindingInfo>,
}

/// Collects what a worker is built from. `O` stands for the operations of its host.
pub struct WorkerBuilder<O> {
    pub script: Option<Script>,
    pub ops: Option<O>,
    pub limits: Option<RuntimeLimits>,
}

/// What a worker is built from.
pub struct WorkerParts<O> {
    pub script: Script,
    pub ops: O,
    pub limits: Option<RuntimeLimits>,
}

impl<O> WorkerBuilder<O> {
    /// Nothing is there yet.
    pub fn new() -> (r: Self)
        ensures
            r.script is None,
            r.ops is None,
            r.limits is None,
    {
        WorkerBuilder { script: None, ops: None, limits: None }
    }

    /// Sets the script.
    pub fn script(self, script: Script) -> (r: Self)
        ensures
            r == (WorkerBuilder { script: Some(script), ..self }),
    {
        WorkerBuilder { script: Some(script), ops: self.ops, limits: self.limits }
    }

    /// Sets the operations of the host.
    pub fn ops(self, ops: O) -> (r: Self)
        ensures
            r == (WorkerBuilder { ops: Some(ops), ..self }),
    {
        WorkerBuilder { script: self.script, ops: Some(ops), limits: self.limits }
    }

    /// Sets the limits.
    pub fn limits(self, limits: RuntimeLimits) -> (r: Self)
        ensures
            r == (WorkerBuilder { limits: Some(limits), ..self }),
    {
        WorkerBuilder { script: self.script, ops: self.ops, limits: Some(limits) }
    }

    /// What the worker is built from. There has to be a script, and there have to be operations.
    pub fn build(self) -> (r: Result<WorkerParts<O>, TerminationReason>)
        ensures
            match (self.script, self.ops) {
                (None, _) => r matches Err(e) && e@ == ReasonView::InitializationError(
                    "Script is required"@,
                ),
                (Some(_), None) => r matches Err(e) && e@ == ReasonView::InitializationError(
                    "Operations handle is required"@,
                ),
                (Some(script), Some(ops)) => r == Ok::<_, TerminationReason>(
                    WorkerParts { script, ops, limits: self.limits },
                ),
            },
    {
        match self.script {
            None => Err(TerminationReason::InitializationError("Script is required".to_string())),
            Some(script) => match self.ops {
                None => Err(
                    TerminationReason::InitializationError(
                        "Operations handle is required".to_string(),
                    ),
                ),
                Some(ops) => Ok(WorkerParts { script, ops, limits: self.limits }),
            },
        }
    }
}

impl<O> Default for WorkerBuilder<O> {
    fn default() -> (r: Self)
        ensures
            r.script is None,
            r.ops is None,
            r.limits is None,
    {
        WorkerBuilder::new()
    }
}

/// How far the script of a worker is set up.
#[derive(Debug, Clone, Copy, PartialEq, Eq, Structural)]
pub enum SetupPhase {
    /// The script is given its event listeners.
    EventListener,
    /// The script is given its environment.
    Env,
    /// The code of the script is evaluated.
    Evaluate,
    /// The handlers that the script exports are found.
    EsModules,
    /// The script can be handed events.
    Ready,
}

impl SetupPhase {
    /// Why a worker stops whose setup fails in this phase.
    pub open spec fn failure(self, error: Seq<char>) -> ReasonView {
        match self {
            SetupPhase::EventListener => ReasonView::InitializationError(
                "Failed to setup addEventListener: "@ + error,
            ),
            SetupPhase::Env => ReasonView::InitializationError("Failed to setup env: "@ + error),
            SetupPhase::Evaluate => evaluation_failed(error),
            SetupPhase::EsModules => ReasonView::InitializationError(
                "Failed to setup ES modules handler: "@ + error,
            ),
            SetupPhase::Ready => ReasonView::Other(error),
        }
    }

    /// The next phase.
    pub open spec fn after(self) -> SetupPhase {
        match self {
            SetupPhase::EventListener => SetupPhase::Env,
            SetupPhase::Env => SetupPhase::Evaluate,
            SetupPhase::Evaluate => SetupPhase::EsModules,
            SetupPhase::EsModules => SetupPhase::Ready,
            SetupPhase::Ready => SetupPhase::Ready,
        }
    }

    /// Goes on to the next phase, or says why the worker stops.
    pub fn next(self, done: Result<(), String>) -> (r: Result<SetupPhase, TerminationReason>)
        ensures
            match done {
                Ok(_) => r == Ok::<_, TerminationReason>(self.after()),
                Err(e) => r matches Err(reason) && reason@ == self.failure(e@),
            },
    {
        match done {
            Ok(()) => Ok(
                match self {
                    SetupPhase::EventListener => SetupPhase::Env,
                    SetupPhase::Env => SetupPhase::Evaluate,
                    SetupPhase::Evaluate => SetupPhase::EsModules,
                    SetupPhase::EsModules => SetupPhase::Ready,
                    SetupPhase::Ready => SetupPhase::Ready,
                },
            ),
            Err(e) => Err(
                match self {
                    SetupPhase::EventListener => TerminationReason::InitializationError(
                        concat2("Failed to setup addEventListener: ", e.as_str()),
                    ),
                    SetupPhase::Env => TerminationReason::InitializationError(
                        concat2("Failed to setup env: ", e.as_str()),
                    ),
                    SetupPhase::Evaluate => evaluation_failure(e.as_str()),
                    SetupPhase::EsModules => TerminationReason::InitializationError(
                        concat2("Failed to setup ES modules handler: ", e.as_str()),
                    ),
                    SetupPhase::Ready => TerminationReason::Other(e),
                },
            ),
        }
    }
}

/// A script is given its listeners and its environment before its code is evaluated, and the
/// handlers that it exports are found after that; then it is ready.
pub proof fn setup_order(phase: SetupPhase)
    ensures
        SetupPhase::EventListener.after() == SetupPhase::Env,
        SetupPhase::EventListener.after().after() == SetupPhase::Evaluate,
        SetupPhase::EventListener.after().after().after() == SetupPhase::EsModules,
        phase.after().after().after().after() == SetupPhase::Ready,
{
}

/// What started a task.
pub enum TaskSource {
    /// A schedule, for this time.
    Schedule { time: u64 },
    /// Something else.
    Other,
}

/// What came of a task.
pub struct TaskResult {
    pub success: bool,
    pub data: Option<Value>,
    pub error: Option<String>,
}

/// A task, and where its result goes.
pub struct TaskInit {
    pub task_id: String,
    pub attempt: u32,
    pub payload: Option<Value>,
    pub source: Option<TaskSource>,
    pub res_tx: oneshot::Sender<TaskResult>,
}

/// A request, and where its response goes.
pub struct FetchInit {
    pub req: HttpRequest,
    pub res_tx: oneshot::Sender<HttpResponse>,
}

/// An event for a worker. What it brings is taken out when it is handled.
pub enum Event {
    Fetch(Option<FetchInit>),
    Task(Option<TaskInit>),
}

/// What an event has brought.
pub enum Started {
    Fetch(FetchInit),
    Task(TaskInit),
}

/// What is known of a running worker.
#[derive(Debug, Clone, Copy, PartialEq, Eq, Structural)]
pub struct Worker {
    /// Whether it was told to stop.
    pub aborted: bool,
    /// Whether it ran out of memory.
    pub memory_limit_hit: bool,
}

/// What the end of a run says, leaving aside what else may have stopped the worker.
pub open spec fn outcome_reason(result: Result<(), Seq<char>>) -> Option<ReasonView> {
    match result {
        Ok(_) => None,
        Err(e) => if occurs_in(e, "Max event loop iterations"@) {
            Some(ReasonView::MaxIterationsReached)
        } else {
            Some(ReasonView::Exception(e))
        },
    }
}

/// Why a worker has stopped, if not because it was done. The more specific reason comes first:
/// CPU time, wall-clock time, memory, being told to, and at last what its script has done.
pub open spec fn stop_reason(
    cpu: bool,
    wall: bool,
    memory: bool,
    aborted: bool,
    result: Result<(), Seq<char>>,
) -> Option<ReasonView> {
    if cpu {
        Some(ReasonView::CpuTimeLimit)
    } else if wall {
        Some(ReasonView::WallClockTimeout)
    } else if memory {
        Some(ReasonView::MemoryLimit)
    } else if aborted {
        Some(ReasonView::Aborted)
    } else {
        outcome_reason(result)
    }
}

/// A result with its message as characters.
pub open spec fn outcome_view(result: Result<(), String>) -> Result<(), Seq<char>> {
    match result {
        Ok(_) => Ok(()),
        Err(e) => Err(e@),
    }
}

impl Worker {
    /// Collects what a worker is built from.
    pub fn builder<O>() -> (r: WorkerBuilder<O>)
        ensures
            r.script is None,
            r.ops is None,
            r.limits is None,
    {
        WorkerBuilder::new()
    }

    /// A worker that has not run.
    pub fn new() -> (r: Self)
        ensures
            r == (Worker { aborted: false, memory_limit_hit: false }),
    {
        Worker { aborted: false, memory_limit_hit: false }
    }

    /// Tells the worker to stop.
    pub fn abort(&mut self)
        ensures
            *final(self) == (Worker { aborted: true, ..*old(self) }),
    {
        self.aborted = true;
    }

    /// Begins to handle an event: takes out what it has brought. A worker that was told to stop
    /// handles nothing, and an event is handled once.
    pub fn exec(&self, event: &mut Event) -> (r: Result<Started, TerminationReason>)
        ensures
            if self.aborted {
                &&& r matches Err(e)
                &&& e@ == ReasonView::Aborted
                &&& *final(event) == *old(event)
            } else {
                match *old(event) {
                    Event::Fetch(Some(init)) => r == Ok::<_, TerminationReason>(
                        Started::Fetch(init),
                    ) && *final(event) == Event::Fetch(None),
                    Event::Task(Some(init)) => r == Ok::<_, TerminationReason>(Started::Task(init))
                        && *final(event) == Event::Task(None),
                    Event::Fetch(None) => (r matches Err(e) && e@ == ReasonView::Other(
                        "FetchInit already consumed"@,
                    )) && *final(event) == *old(event),
                    Event::Task(None) => (r matches Err(e) && e@ == ReasonView::Other(
                        "TaskInit already consumed"@,
                    )) && *final(event) == *old(event),
                }
            },
    {
        if self.aborted {
            return Err(TerminationReason::Aborted);
        }
        match event {
            Event::Fetch(init) => match init.take() {
                Some(i) => Ok(Started::Fetch(i)),
                None => Err(TerminationReason::Other("FetchInit already consumed".to_string())),
            },
            Event::Task(init) => match init.take() {
                Some(i) => Ok(Started::Task(i)),
                None => Err(TerminationReason::Other("TaskInit already consumed".to_string())),
            },
        }
    }

    /// Says why the worker has stopped, from how its run ended and from the guards of its limits.
    pub fn check_termination_reason(
        &self,
        result: Result<(), String>,
        cpu_limit_hit: bool,
        wall_timeout_hit: bool,
    ) -> (r: Result<(), TerminationReason>)
        ensures
            match stop_reason(
                cpu_limit_hit,
                wall_timeout_hit,
                self.memory_limit_hit,
                self.aborted,
                outcome_view(result),
            ) {
                Some(reason) => r matches Err(e) && e@ == reason,
                None => r is Ok,
            },
    {
        if cpu_limit_hit {
            return Err(TerminationReason::CpuTimeLimit);
        }
        if wall_timeout_hit {
            return Err(TerminationReason::WallClockTimeout);
        }
        if self.memory_limit_hit {
            return Err(TerminationReason::MemoryLimit);
        }
        if self.aborted {
            return Err(TerminationReason::Aborted);
        }
        match result {
            Ok(()) => Ok(()),
            Err(e) => if contains_text(e.as_str(), "Max event loop iterations") {
                Err(TerminationReason::MaxIterationsReached)
            } else {
                Err(TerminationReason::Exception(e))
            },
        }
    }
}

/// Whether a worker has to stop at once: the engine is being stopped, or a guard has gone off.
pub fn is_terminated(engine_terminating: bool, wall_triggered: bool, cpu_terminated: bool) -> (r:
    bool)
    ensures
        r == (engine_terminating || wall_triggered || cpu_terminated),
{
    engine_terminating || wall_triggered || cpu_terminated
}

/// A worker that was told to stop, and that no limit has stopped, says so whatever its script has
/// done.
pub proof fn aborting_is_reported(result: Result<(), Seq<char>>)
    ensures
        stop_reason(false, false, false, true, result) == Some(ReasonView::Aborted),
{
}

/// Where a limit was hit, the limit is the reason and not what the script makes of it.
pub proof fn limits_outrank_results(
    cpu: bool,
    wall: bool,
    memory: bool,
    aborted: bool,
    first: Result<(), Seq<char>>,
    second: Result<(), Seq<char>>,
)
    requires
        cpu || wall || memory,
    ensures
        stop_reason(cpu, wall, memory, aborted, first) == stop_reason(
            cpu,
            wall,
            memory,
            aborted,
            second,
        ),
        stop_reason(cpu, wall, memory, aborted, first) is Some,
{
}

/// A worker succeeds only where nothing has stopped it and its script has not failed.
pub proof fn success_means_nothing_stopped(
    cpu: bool,
    wall: bool,
    memory: bool,
    aborted: bool,
    result: Result<(), Seq<char>>,
)
    ensures
        stop_reason(cpu, wall, memory, aborted, result) is None <==> !cpu && !wall && !memory
            && !aborted && result is Ok,
{
}

/// Of several reasons for which a worker could have stopped the first of these is given: its CPU
/// time, its wall-clock time, its memory, being told to. What its script has done counts only where
/// none of them holds: a message about too many iterations of the event loop is that reason, and
/// any other is an exception with that message.
pub proof fn reasons_are_ranked(
    wall: bool,
    memory: bool,
    aborted: bool,
    result: Result<(), Seq<char>>,
    before: Seq<char>,
    behind: Seq<char>,
)
    ensures
        stop_reason(true, wall, memory, aborted, result) == Some(ReasonView::CpuTimeLimit),
        stop_reason(false, true, memory, aborted, result) == Some(ReasonView::WallClockTimeout),
        stop_reason(false, false, true, aborted, result) == Some(ReasonView::MemoryLimit),
        stop_reason(false, false, false, true, result) == Some(ReasonView::Aborted),
        stop_reason(false, false, false, false, Ok(())) is None,
        stop_reason(
            false,
            false,
            false,
            false,
            Err(before + "Max event loop iterations"@ + behind),
        ) == Some(ReasonView::MaxIterationsReached),
        forall|e: Seq<char>|
            (forall|a: Seq<char>, b: Seq<char>| e != #[trigger] (a + "Max event loop iterations"@
                + b)) ==> #[trigger] stop_reason(false, false, false, false, Err(e)) == Some(
                ReasonView::Exception(e),
            ),
{
    let words = "Max event loop iterations"@;
    let hay = before + words + behind;
    crate::text::occurring_is_standing_in_between(hay, words);
    assert(hay == before + words + behind);
    assert forall|e: Seq<char>|
        (forall|a: Seq<char>, b: Seq<char>| e != #[trigger] (a + "Max event loop iterations"@
            + b)) implies #[trigger] stop_reason(false, false, false, false, Err(e)) == Some(
        ReasonView::Exception(e),
    ) by {
        crate::text::occurring_is_standing_in_between(e, words);
    }
}

/// The end of a run is seen with its own message.
pub proof fn outcomes_keep_their_message(e: String)
    ensures
        outcome_view(Ok(())) == Ok::<(), Seq<char>>(()),
        outcome_view(Err(e)) == Err::<(), Seq<char>>(e@),
{
}

/// A worker whose setup fails says in which phase, and why: code that cannot be evaluated is an
/// exception, any other phase a failed initialization.
pub proof fn setup_failures_name_their_phase(error: Seq<char>)
    ensures
        SetupPhase::EventListener.failure(error) == ReasonView::InitializationError(
            "Failed to setup addEventListener: "@ + error,
        ),
        SetupPhase::Env.failure(error) == ReasonView::InitializationError(
            "Failed to setup env: "@ + error,
        ),
        SetupPhase::Evaluate.failure(error) == ReasonView::Exception(
            "Script evaluation failed: "@ + error,
        ),
        SetupPhase::EsModules.failure(error) == ReasonView::InitializationError(
            "Failed to setup ES modules handler: "@ + error,
        ),
{
}

/// A script that is ready has nothing left to set up; what fails then is handed on as it is.
pub proof fn ready_script_stays_ready(error: Seq<char>)
    ensures
        SetupPhase::Ready.after() == SetupPhase::Ready,
        SetupPhase::Ready.failure(error) == ReasonView::Other(error),
{
}

} // verus!
