//! How an event reaches the script of a worker, and how its result comes back.

use bytes::Bytes;
use serde_json::Value;
use tokio::sync::mpsc::Receiver;
use vstd::prelude::*;

use crate::callback_handlers::{EngineValue, FieldValue, FieldView, ObjectView, ResultObject};
use crate::chunk_channel::max_capacity;
use crate::limits::{ReasonView, TerminationReason};
use crate::operations::{json_parse, json_reread, json_text, json_text_of, HttpRequest, RequestBody};
use crate::stream_manager::{StreamId, StreamManager};
use crate::text::text_in;
use crate::worker::{Event, SetupPhase, TaskInit, TaskResult, TaskSource};
use crate::worker_future::EventLoopExit;

verus! {

/// Whether a worker has its engine to itself or one from a pool.
#[derive(Debug, Clone, Copy, PartialEq, Eq, Structural)]
pub enum EngineKind {
    Owned,
    Pooled,
}

/// The handler of the script that a task is handed to.
#[derive(Debug, Clone, Copy, PartialEq, Eq, Structural)]
pub enum TaskHandler {
    /// The one for tasks.
    Task,
    /// The one for scheduled runs.
    Scheduled,
}

/// A call of a handler.
pub struct TaskCall {
    pub handler: TaskHandler,
    pub event: ResultObject,
}

/// The time for which a task was scheduled.
pub open spec fn scheduled_time(source: Option<TaskSource>) -> Option<u64> {
    match source {
        Some(TaskSource::Schedule { time }) => Some(time),
        _ => None,
    }
}

/// The time of a task as a field, where it has one.
pub open spec fn time_fields(source: Option<TaskSource>) -> ObjectView {
    match scheduled_time(source) {
        Some(time) => seq![("scheduledTime"@, FieldView::Number(time))],
        None => Seq::empty(),
    }
}

/// What the handler for tasks is called with. `payload` is what the engine made of the JSON text
/// of the payload; a pooled engine is not told of the attempt.
pub open spec fn task_fields(
    init: TaskInit,
    payload: Option<EngineValue>,
    kind: EngineKind,
) -> ObjectView {
    seq![("taskId"@, FieldView::Text(init.task_id@))] + (if kind == EngineKind::Owned {
        seq![("attempt"@, FieldView::Number(init.attempt as u64))]
    } else {
        Seq::empty()
    }) + (match (init.payload, payload) {
        (Some(_), Some(v)) => seq![("payload"@, FieldView::Parsed(v))],
        _ => Seq::empty(),
    }) + time_fields(init.source)
}

/// The JSON text of the payload of a task, which the engine has to parse.
pub fn payload_text(init: &TaskInit) -> (r: Option<String>)
    ensures
        text_in(r) == (match init.payload {
            Some(v) => Some(json_text_of(v)),
            None => None,
        }),
{
    match &init.payload {
        Some(v) => Some(json_text(v)),
        None => None,
    }
}

/// The call that hands a task to the script: to its handler for tasks, else to the one for
/// scheduled runs, which learns of the time only. Without either there is no call.
pub fn task_call(
    init: &TaskInit,
    has_task_handler: bool,
    has_scheduled_handler: bool,
    payload: Option<EngineValue>,
    kind: EngineKind,
) -> (r: Option<TaskCall>)
    ensures
        match r {
            Some(call) => if has_task_handler {
                call.handler == TaskHandler::Task && call.event@ == task_fields(
                    *init,
                    payload,
                    kind,
                )
            } else {
                has_scheduled_handler && call.handler == TaskHandler::Scheduled && call.event@
                    == time_fields(init.source)
            },
            None => !has_task_handler && !has_scheduled_handler,
        },
{
    let time: Option<u64> = match &init.source {
        Some(TaskSource::Schedule { time }) => Some(*time),
        _ => None,
    };
    if has_task_handler {
        let mut event = ResultObject::new();
        event.set("taskId", FieldValue::Text(init.task_id.clone()));
        if kind == EngineKind::Owned {
            event.set("attempt", FieldValue::Number(init.attempt as u64));
        }
        if init.payload.is_some() {
            if let Some(v) = payload {
                event.set("payload", FieldValue::Parsed(v));
            }
        }
        if let Some(t) = time {
            event.set("scheduledTime", FieldValue::Number(t));
        }
        assert(event@ =~= task_fields(*init, payload, kind));
        Some(TaskCall { handler: TaskHandler::Task, event })
    } else if has_scheduled_handler {
        let mut event = ResultObject::new();
        if let Some(t) = time {
            event.set("scheduledTime", FieldValue::Number(t));
        }
        assert(event@ =~= time_fields(init.source));
        Some(TaskCall { handler: TaskHandler::Scheduled, event })
    } else {
        None
    }
}

/// How the call of a handler ended. `returned` says, where there was a call, whether it came
/// back. A pooled engine does not look.
pub fn after_task_call(returned: Option<bool>, kind: EngineKind) -> (r: Result<(), String>)
    ensures
        if returned == Some(false) && kind == EngineKind::Owned {
            r matches Err(e) && e@ == "Execution terminated"@
        } else {
            r is Ok
        },
{
    match (returned, kind) {
        (Some(false), EngineKind::Owned) => Err("Execution terminated".to_string()),
        _ => Ok(()),
    }
}

/// What the script has left as the result of a task.
pub struct TaskObject {
    /// Whether it calls the task a success, where it says so.
    pub success: Option<bool>,
    /// The JSON text of its data, where there is data and where it has one.
    pub data: Option<String>,
    /// Its error as text, where there is one.
    pub error: Option<String>,
}

/// The JSON text of a value in an option.
pub open spec fn json_in(v: Option<Value>) -> Option<Seq<char>> {
    match v {
        Some(x) => Some(json_text_of(x)),
        None => None,
    }
}

/// Reads what the script has left as the result of a task. Where that is no object, the task is
/// a success without data.
pub fn read_task_result(left: Option<TaskObject>) -> (r: TaskResult)
    ensures
        match left {
            Some(o) => {
                &&& r.success == (match o.success {
                    Some(b) => b,
                    None => true,
                })
                &&& json_in(r.data) == (match o.data {
                    Some(text) => json_reread(text@),
                    None => None,
                })
                &&& text_in(r.error) == text_in(o.error)
            },
            None => r.success && r.data is None && r.error is None,
        },
{
    match left {
        Some(o) => {
            let success = match o.success {
                Some(b) => b,
                None => true,
            };
            let data = match o.data {
                Some(text) => json_parse(text.as_str()),
                None => None,
            };
            TaskResult { success, data, error: o.error }
        },
        None => TaskResult { success: true, data: None, error: None },
    }
}

/// Takes the body of a request that arrives in chunks out of it, and creates the stream on which
/// the script reads it.
pub fn take_streamed_body(req: &mut HttpRequest, streams: &mut StreamManager) -> (r: Option<
    (StreamId, Receiver<Result<Bytes, String>>),
>)
    requires
        old(streams).wf(),
        old(req).body is Stream ==> 0 < old(streams).high_water_mark <= max_capacity() && old(
            streams,
        ).next_id < u64::MAX && old(streams).next_channel < u64::MAX,
    ensures
        final(streams).wf(),
        match old(req).body {
            RequestBody::Stream(rx) => r == Some((old(streams).next_id, rx)) && *final(req) == (
            HttpRequest { body: RequestBody::Empty, ..*old(req) }) && final(streams)@ == old(
                streams,
            )@.create("request_body"@),
            _ => r is None && *final(req) == *old(req) && final(streams)@ == old(streams)@,
        },
{
    let mut body = RequestBody::Empty;
    std::mem::swap(&mut body, &mut req.body);
    match body {
        RequestBody::Stream(rx) => {
            let id: StreamId = streams.pump_request_body();
            Some((id, rx))
        },
        other => {
            req.body = other;
            None
        },
    }
}

/// How far the handling of a request has come.
pub enum FetchPhase {
    /// The handler of the script is to be called.
    Trigger,
    /// The script works on its response.
    AwaitResponse,
    /// The response is to be read and sent.
    ReadResponse,
    /// The response was sent, with this status; what the script does beyond it goes on.
    AwaitCompletion(u16),
    /// The request is handled.
    Finished(Result<u16, String>),
}

/// How far it has come, with a message as characters.
pub enum FetchPhaseView {
    Trigger,
    AwaitResponse,
    ReadResponse,
    AwaitCompletion(u16),
    Finished(Result<u16, Seq<char>>),
}

impl View for FetchPhase {
    type V = FetchPhaseView;

    open spec fn view(&self) -> FetchPhaseView {
        match self {
            FetchPhase::Trigger => FetchPhaseView::Trigger,
            FetchPhase::AwaitResponse => FetchPhaseView::AwaitResponse,
            FetchPhase::ReadResponse => FetchPhaseView::ReadResponse,
            FetchPhase::AwaitCompletion(s) => FetchPhaseView::AwaitCompletion(*s),
            FetchPhase::Finished(Ok(s)) => FetchPhaseView::Finished(Ok(*s)),
            FetchPhase::Finished(Err(e)) => FetchPhaseView::Finished(Err(e@)),
        }
    }
}

impl FetchPhaseView {
    /// The next phase. `done` is the status of the response where one was read, and the message
    /// where the phase has failed.
    pub open spec fn next(self, done: Result<u16, Seq<char>>) -> FetchPhaseView {
        match (self, done) {
            (FetchPhaseView::Finished(r), _) => FetchPhaseView::Finished(r),
            (_, Err(e)) => FetchPhaseView::Finished(Err(e)),
            (FetchPhaseView::Trigger, Ok(_)) => FetchPhaseView::AwaitResponse,
            (FetchPhaseView::AwaitResponse, Ok(_)) => FetchPhaseView::ReadResponse,
            (FetchPhaseView::ReadResponse, Ok(status)) => FetchPhaseView::AwaitCompletion(status),
            (FetchPhaseView::AwaitCompletion(status), Ok(_)) => FetchPhaseView::Finished(
                Ok(status),
            ),
        }
    }

    /// What the event loop waits for in a phase, and whether a client that goes away is dealt with.
    pub open spec fn awaits(self) -> Option<(EventLoopExit, bool)> {
        match self {
            FetchPhaseView::AwaitResponse => Some((EventLoopExit::ResponseReady, false)),
            FetchPhaseView::AwaitCompletion(_) => Some((EventLoopExit::FullyComplete, true)),
            _ => None,
        }
    }
}

/// A status, or a message as characters.
pub open spec fn status_view(done: Result<u16, String>) -> Result<u16, Seq<char>> {
    match done {
        Ok(s) => Ok(s),
        Err(e) => Err(e@),
    }
}

impl FetchPhase {
    /// Goes on to the next phase. `done` is the status of the response where one was read, and
    /// the message where the phase has failed.
    pub fn next(self, done: Result<u16, String>) -> (r: Self)
        ensures
            r@ == self@.next(status_view(done)),
    {
        match (self, done) {
            (FetchPhase::Finished(r), _) => FetchPhase::Finished(r),
            (_, Err(e)) => FetchPhase::Finished(Err(e)),
            (FetchPhase::Trigger, Ok(_)) => FetchPhase::AwaitResponse,
            (FetchPhase::AwaitResponse, Ok(_)) => FetchPhase::ReadResponse,
            (FetchPhase::ReadResponse, Ok(status)) => FetchPhase::AwaitCompletion(status),
            (FetchPhase::AwaitCompletion(status), Ok(_)) => FetchPhase::Finished(Ok(status)),
        }
    }

    /// What the event loop waits for in a phase, and whether a client that goes away is dealt
    /// with: only once its response is on the way.
    pub fn waits_for(&self) -> (r: Option<(EventLoopExit, bool)>)
        ensures
            r == self@.awaits(),
            r == (match self@ {
                FetchPhaseView::AwaitResponse => Some((EventLoopExit::ResponseReady, false)),
                FetchPhaseView::AwaitCompletion(_) => Some((EventLoopExit::FullyComplete, true)),
                _ => None,
            }),
    {
        match self {
            FetchPhase::AwaitResponse => Some((EventLoopExit::ResponseReady, false)),
            FetchPhase::AwaitCompletion(_) => Some((EventLoopExit::FullyComplete, true)),
            _ => None,
        }
    }
}

/// A request that nothing goes wrong with is handled in four steps, and its status is that of
/// the response that was read.
pub proof fn request_is_handled(a: u16, b: u16, status: u16, d: u16)
    ensures
        FetchPhaseView::Trigger.next(Ok(a)).next(Ok(b)).next(Ok(status)).next(Ok(d))
            == FetchPhaseView::Finished(Ok(status)),
{
}

/// A failure in any phase is how the request ends, and nothing changes that.
pub proof fn failure_ends_the_request(
    phase: FetchPhaseView,
    e: Seq<char>,
    later: Result<u16, Seq<char>>,
)
    requires
        phase !is Finished,
    ensures
        phase.next(Err(e)) == FetchPhaseView::Finished(Err(e)),
        phase.next(Err(e)).next(later) == FetchPhaseView::Finished(Err(e)),
{
}

/// How often a pooled worker looks whether a task is done.
pub const POOLED_CHECKS: u32 = 100;

/// How long it waits in between, in milliseconds, unless a message comes.
pub const POOLED_WAIT_MS: u64 = 10;

/// The wait for a task that runs on a pooled engine.
#[derive(Debug, Clone, Copy, PartialEq, Eq, Structural)]
pub struct PooledWait {
    /// How often it was looked.
    pub checks: u32,
}

/// What follows a look.
#[derive(Debug, Clone, Copy, PartialEq, Eq, Structural)]
pub enum WaitStep {
    /// The task is done: read and send its result.
    Deliver,
    /// Wait, then look again.
    WaitAndCheck,
    /// Wait, and then leave the task to itself; no result is sent.
    WaitAndLeave,
}

impl PooledWait {
    /// Nobody has looked yet.
    pub fn new() -> (r: Self)
        ensures
            r.checks == 0,
    {
        PooledWait { checks: 0 }
    }

    /// Somebody has looked whether the task is done.
    pub fn checked(&mut self, complete: bool) -> (r: WaitStep)
        requires
            old(self).checks < POOLED_CHECKS,
        ensures
            final(self).checks == old(self).checks + 1,
            r == (if complete {
                WaitStep::Deliver
            } else if old(self).checks + 1 < POOLED_CHECKS {
                WaitStep::WaitAndCheck
            } else {
                WaitStep::WaitAndLeave
            }),
    {
        self.checks = self.checks + 1;
        if complete {
            WaitStep::Deliver
        } else if self.checks < POOLED_CHECKS {
            WaitStep::WaitAndCheck
        } else {
            WaitStep::WaitAndLeave
        }
    }
}

/// Takes the task out of an event for a pooled engine, which handles tasks only.
pub fn pooled_task(event: Event) -> (r: Result<TaskInit, TerminationReason>)
    ensures
        match event {
            Event::Task(Some(init)) => r == Ok::<_, TerminationReason>(init),
            Event::Task(None) => r matches Err(e) && e@ == ReasonView::Other(
                "TaskInit already consumed"@,
            ),
            Event::Fetch(_) => r matches Err(e) && e@ == ReasonView::Other(
                "Fetch not yet implemented for pooled mode"@,
            ),
        },
{
    match event {
        Event::Task(Some(init)) => Ok(init),
        Event::Task(None) => Err(TerminationReason::Other("TaskInit already consumed".to_string())),
        Event::Fetch(_) => Err(
            TerminationReason::Other("Fetch not yet implemented for pooled mode".to_string()),
        ),
    }
}

/// How far a run on a pooled engine has come.
pub enum PooledRun {
    /// The script is being set up.
    Setup(SetupPhase),
    /// The task is looked for in the event, and handed to the script.
    Hand,
    /// The task runs; it is time to look whether it is done.
    Look(PooledWait),
    /// The task is done; its result is to be sent.
    Deliver,
    /// The run is over.
    Finished(Result<(), TerminationReason>),
}

/// What happens in such a run.
pub enum PooledEvent {
    /// A step of the setup is done, or has failed.
    SetUp(Result<(), String>),
    /// The code of the script, or the event, is of no use to a pooled engine.
    Refused(TerminationReason),
    /// The task was handed to the script.
    Handed,
    /// Somebody has looked whether the task is done, and has waited where it is not.
    Looked(bool),
    /// The result was sent.
    Sent,
}

/// How far a run on a pooled engine has come.
pub enum PooledRunView {
    Setup(SetupPhase),
    Hand,
    Look(u32),
    Deliver,
    Finished(Result<(), ReasonView>),
}

/// What happens in such a run.
pub enum PooledEventView {
    SetUp(Result<(), Seq<char>>),
    Refused(ReasonView),
    Handed,
    Looked(bool),
    Sent,
}

impl View for PooledRun {
    type V = PooledRunView;

    open spec fn view(&self) -> PooledRunView {
        match self {
            PooledRun::Setup(phase) => PooledRunView::Setup(*phase),
            PooledRun::Hand => PooledRunView::Hand,
            PooledRun::Look(wait) => PooledRunView::Look(wait.checks),
            PooledRun::Deliver => PooledRunView::Deliver,
            PooledRun::Finished(Ok(_)) => PooledRunView::Finished(Ok(())),
            PooledRun::Finished(Err(e)) => PooledRunView::Finished(Err(e@)),
        }
    }
}

impl View for PooledEvent {
    type V = PooledEventView;

    open spec fn view(&self) -> PooledEventView {
        match self {
            PooledEvent::SetUp(Ok(_)) => PooledEventView::SetUp(Ok(())),
            PooledEvent::SetUp(Err(e)) => PooledEventView::SetUp(Err(e@)),
            PooledEvent::Refused(reason) => PooledEventView::Refused(reason@),
            PooledEvent::Handed => PooledEventView::Handed,
            PooledEvent::Looked(complete) => PooledEventView::Looked(*complete),
            PooledEvent::Sent => PooledEventView::Sent,
        }
    }
}

impl PooledRunView {
    /// What the run comes to. What cannot happen at a point changes nothing.
    pub open spec fn next(self, event: PooledEventView) -> PooledRunView {
        match (self, event) {
            (PooledRunView::Finished(r), _) => PooledRunView::Finished(r),
            (_, PooledEventView::Refused(reason)) => PooledRunView::Finished(Err(reason)),
            (PooledRunView::Setup(phase), PooledEventView::SetUp(Err(e))) => PooledRunView::Finished(
                Err(phase.failure(e)),
            ),
            (PooledRunView::Setup(phase), PooledEventView::SetUp(Ok(_))) => if phase.after()
                == SetupPhase::Ready {
                PooledRunView::Hand
            } else {
                PooledRunView::Setup(phase.after())
            },
            (PooledRunView::Hand, PooledEventView::Handed) => PooledRunView::Look(0),
            (PooledRunView::Look(_), PooledEventView::Looked(true)) => PooledRunView::Deliver,
            (PooledRunView::Look(n), PooledEventView::Looked(false)) => if n + 1 < POOLED_CHECKS {
                PooledRunView::Look((n + 1) as u32)
            } else {
                PooledRunView::Finished(Ok(()))
            },
            (PooledRunView::Deliver, PooledEventView::Sent) => PooledRunView::Finished(Ok(())),
            (run, _) => run,
        }
    }

    /// What the run comes to when it is looked `n` times at a task that is not done.
    pub open spec fn looked_in_vain(self, n: nat) -> PooledRunView
        decreases n,
    {
        if n == 0 {
            self
        } else {
            self.looked_in_vain((n - 1) as nat).next(PooledEventView::Looked(false))
        }
    }
}

impl PooledRun {
    /// It is looked less often than the limit says.
    pub open spec fn wf(self) -> bool {
        self matches PooledRun::Look(wait) ==> wait.checks < POOLED_CHECKS
    }

    /// A run begins with the first step of the setup.
    pub fn new() -> (r: Self)
        ensures
            r.wf(),
            r@ == PooledRunView::Setup(SetupPhase::EventListener),
    {
        PooledRun::Setup(SetupPhase::EventListener)
    }

    /// Goes on with what has happened.
    pub fn next(self, event: PooledEvent) -> (r: Self)
        requires
            self.wf(),
        ensures
            r.wf(),
            r@ == self@.next(event@),
    {
        match (self, event) {
            (PooledRun::Finished(r), _) => PooledRun::Finished(r),
            (_, PooledEvent::Refused(reason)) => PooledRun::Finished(Err(reason)),
            (PooledRun::Setup(phase), PooledEvent::SetUp(done)) => match phase.next(done) {
                Err(reason) => PooledRun::Finished(Err(reason)),
                Ok(SetupPhase::Ready) => PooledRun::Hand,
                Ok(phase) => PooledRun::Setup(phase),
            },
            (PooledRun::Hand, PooledEvent::Handed) => PooledRun::Look(PooledWait::new()),
            (PooledRun::Look(wait), PooledEvent::Looked(complete)) => {
                let mut wait = wait;
                match wait.checked(complete) {
                    WaitStep::Deliver => PooledRun::Deliver,
                    WaitStep::WaitAndCheck => PooledRun::Look(wait),
                    WaitStep::WaitAndLeave => PooledRun::Finished(Ok(())),
                }
            },
            (PooledRun::Deliver, PooledEvent::Sent) => PooledRun::Finished(Ok(())),
            (run, _) => run,
        }
    }
}

/// The looks in vain are counted until they are too many.
proof fn looks_are_counted(n: nat)
    ensures
        n < POOLED_CHECKS ==> PooledRunView::Look(0).looked_in_vain(n) == PooledRunView::Look(
            n as u32,
        ),
        n >= POOLED_CHECKS ==> PooledRunView::Look(0).looked_in_vain(n)
            == PooledRunView::Finished(Ok(())),
    decreases n,
{
    if n > 0 {
        looks_are_counted((n - 1) as nat);
    }
}

/// The result of a task is sent if it is done when it is looked for the hundredth time at the
/// latest; then the run is a success.
pub proof fn done_task_is_delivered(n: nat)
    requires
        n < POOLED_CHECKS,
    ensures
        PooledRunView::Look(0).looked_in_vain(n).next(PooledEventView::Looked(true))
            == PooledRunView::Deliver,
        PooledRunView::Deliver.next(PooledEventView::Sent) == PooledRunView::Finished(Ok(())),
{
    looks_are_counted(n);
}

/// A task that is not done by then is left to itself: the run is over, no result is sent, and
/// nothing changes that any more.
pub proof fn late_task_is_left(n: nat, event: PooledEventView)
    requires
        n >= POOLED_CHECKS,
    ensures
        PooledRunView::Look(0).looked_in_vain(n) == PooledRunView::Finished(Ok(())),
        PooledRunView::Look(0).looked_in_vain(n).next(event) == PooledRunView::Finished(Ok(())),
{
    looks_are_counted(n);
}

/// The first step of the setup that fails is why the run ends.
pub proof fn failed_setup_ends_the_run(phase: SetupPhase, error: Seq<char>)
    ensures
        PooledRunView::Setup(phase).next(PooledEventView::SetUp(Err(error)))
            == PooledRunView::Finished(Err(phase.failure(error))),
{
}

/// A handler for tasks learns the number of the task, the attempt where its engine is its own, the
/// payload where there is one that the engine has parsed, and the time where the task was scheduled
/// for one; in this order, and nothing else.
pub proof fn task_handlers_learn_of_the_task(init: TaskInit, payload: Option<EngineValue>)
    ensures
        task_fields(init, payload, EngineKind::Owned)[0] == (
            "taskId"@,
            FieldView::Text(init.task_id@),
        ),
        task_fields(init, payload, EngineKind::Owned)[1] == (
            "attempt"@,
            FieldView::Number(init.attempt as u64),
        ),
        task_fields(init, payload, EngineKind::Pooled)[0] == (
            "taskId"@,
            FieldView::Text(init.task_id@),
        ),
        task_fields(init, payload, EngineKind::Owned).len() == task_fields(
            init,
            payload,
            EngineKind::Pooled,
        ).len() + 1,
        forall|i: int|
            1 <= i < task_fields(init, payload, EngineKind::Pooled).len() ==> #[trigger]
                task_fields(init, payload, EngineKind::Pooled)[i] == task_fields(
                init,
                payload,
                EngineKind::Owned,
            )[i + 1],
        task_fields(init, payload, EngineKind::Pooled).len() == 1 + (if init.payload is Some
            && payload is Some {
            1nat
        } else {
            0nat
        }) + (if init.source is Some && init.source->0 is Schedule {
            1nat
        } else {
            0nat
        }),
        init.payload is Some && payload is Some ==> task_fields(
            init,
            payload,
            EngineKind::Pooled,
        )[1] == ("payload"@, FieldView::Parsed(payload->0)),
        init.source is Some && init.source->0 is Schedule ==> task_fields(
            init,
            payload,
            EngineKind::Pooled,
        ).last() == ("scheduledTime"@, FieldView::Number(init.source->0->time)),
{
}

/// A handler for scheduled runs learns the time, and only where the task was scheduled for one.
pub proof fn scheduled_handlers_learn_the_time(time: u64)
    ensures
        time_fields(Some(TaskSource::Schedule { time })) == seq![
            ("scheduledTime"@, FieldView::Number(time)),
        ],
        time_fields(Some(TaskSource::Other)).len() == 0,
        time_fields(None).len() == 0,
        scheduled_time(Some(TaskSource::Schedule { time })) == Some(time),
        scheduled_time(Some(TaskSource::Other)) is None,
        scheduled_time(None) is None,
{
}

/// The data of a result is seen as its JSON text, where there is data.
pub proof fn data_is_seen_as_json(v: Value)
    ensures
        json_in(Some(v)) == Some(json_text_of(v)),
        json_in(None) is None,
{
}

/// The handling of a request goes through its phases in order: the handler is called, then its
/// response is awaited, read, and what goes on beyond it awaited. Once it is finished, nothing
/// changes it.
pub proof fn request_goes_through_its_phases(
    status: u16,
    read: u16,
    done: Result<u16, Seq<char>>,
    result: Result<u16, Seq<char>>,
    e: String,
)
    ensures
        FetchPhaseView::Trigger.next(Ok(status)) == FetchPhaseView::AwaitResponse,
        FetchPhaseView::AwaitResponse.next(Ok(status)) == FetchPhaseView::ReadResponse,
        FetchPhaseView::ReadResponse.next(Ok(status)) == FetchPhaseView::AwaitCompletion(status),
        FetchPhaseView::AwaitCompletion(read).next(Ok(status)) == FetchPhaseView::Finished(
            Ok(read),
        ),
        FetchPhaseView::Finished(result).next(done) == FetchPhaseView::Finished(result),
        status_view(Ok(status)) == Ok::<u16, Seq<char>>(status),
        status_view(Err(e)) == Err::<u16, Seq<char>>(e@),
{
}

/// A run on a pooled engine sets the script up in four steps, then hands it the task, and then looks
/// whether the task is done, for the first time.
pub proof fn pooled_run_begins_with_the_setup()
    ensures
        ({
            let done = PooledEventView::SetUp(Ok(()));
            let start = PooledRunView::Setup(SetupPhase::EventListener);
            &&& start.next(done) == PooledRunView::Setup(SetupPhase::Env)
            &&& start.next(done).next(done) == PooledRunView::Setup(SetupPhase::Evaluate)
            &&& start.next(done).next(done).next(done) == PooledRunView::Setup(
                SetupPhase::EsModules,
            )
            &&& start.next(done).next(done).next(done).next(done) == PooledRunView::Hand
            &&& PooledRunView::Hand.next(PooledEventView::Handed) == PooledRunView::Look(0)
        }),
{
}

/// A refusal ends a run that is not over, with its reason; a run that is over stays as it ended.
pub proof fn refusal_ends_the_run(
    run: PooledRunView,
    reason: ReasonView,
    result: Result<(), ReasonView>,
    event: PooledEventView,
)
    ensures
        run !is Finished ==> run.next(PooledEventView::Refused(reason)) == PooledRunView::Finished(
            Err(reason),
        ),
        PooledRunView::Finished(result).next(event) == PooledRunView::Finished(result),
{
}

/// What cannot happen at a point of a run changes nothing.
pub proof fn untimely_events_change_nothing(
    phase: SetupPhase,
    n: u32,
    done: Result<(), Seq<char>>,
    complete: bool,
)
    ensures
        PooledRunView::Setup(phase).next(PooledEventView::Handed) == PooledRunView::Setup(phase),
        PooledRunView::Setup(phase).next(PooledEventView::Looked(complete)) == PooledRunView::Setup(
            phase,
        ),
        PooledRunView::Setup(phase).next(PooledEventView::Sent) == PooledRunView::Setup(phase),
        PooledRunView::Hand.next(PooledEventView::SetUp(done)) == PooledRunView::Hand,
        PooledRunView::Hand.next(PooledEventView::Looked(complete)) == PooledRunView::Hand,
        PooledRunView::Hand.next(PooledEventView::Sent) == PooledRunView::Hand,
        PooledRunView::Look(n).next(PooledEventView::SetUp(done)) == PooledRunView::Look(n),
        PooledRunView::Look(n).next(PooledEventView::Handed) == PooledRunView::Look(n),
        PooledRunView::Look(n).next(PooledEventView::Sent) == PooledRunView::Look(n),
        PooledRunView::Deliver.next(PooledEventView::SetUp(done)) == PooledRunView::Deliver,
        PooledRunView::Deliver.next(PooledEventView::Handed) == PooledRunView::Deliver,
        PooledRunView::Deliver.next(PooledEventView::Looked(complete)) == PooledRunView::Deliver,
{
}

/// A task is looked for a hundred times at the most, and each time in vain counts.
pub proof fn looks_count_to_a_hundred(n: u32)
    ensures
        n < 99 ==> PooledRunView::Look(n).next(PooledEventView::Looked(false))
            == PooledRunView::Look((n + 1) as u32),
        n >= 99 ==> PooledRunView::Look(n).next(PooledEventView::Looked(false))
            == PooledRunView::Finished(Ok(())),
        PooledRunView::Look(n).next(PooledEventView::Looked(true)) == PooledRunView::Deliver,
{
}

/// What is seen of the handling of a request, of a run and of what happens in it is how far they
/// have come, and their messages.
pub proof fn phases_show_how_far_they_are(
    status: u16,
    e: String,
    phase: SetupPhase,
    wait: PooledWait,
    reason: TerminationReason,
    complete: bool,
)
    ensures
        FetchPhase::Trigger@ == FetchPhaseView::Trigger,
        FetchPhase::AwaitResponse@ == FetchPhaseView::AwaitResponse,
        FetchPhase::ReadResponse@ == FetchPhaseView::ReadResponse,
        FetchPhase::AwaitCompletion(status)@ == FetchPhaseView::AwaitCompletion(status),
        FetchPhase::Finished(Ok(status))@ == FetchPhaseView::Finished(Ok(status)),
        FetchPhase::Finished(Err(e))@ == FetchPhaseView::Finished(Err(e@)),
        PooledRun::Setup(phase)@ == PooledRunView::Setup(phase),
        PooledRun::Hand@ == PooledRunView::Hand,
        PooledRun::Look(wait)@ == PooledRunView::Look(wait.checks),
        PooledRun::Deliver@ == PooledRunView::Deliver,
        PooledRun::Finished(Ok(()))@ == PooledRunView::Finished(Ok(())),
        PooledRun::Finished(Err(reason))@ == PooledRunView::Finished(Err(reason@)),
        PooledEvent::SetUp(Ok(()))@ == PooledEventView::SetUp(Ok(())),
        PooledEvent::SetUp(Err(e))@ == PooledEventView::SetUp(Err(e@)),
        PooledEvent::Refused(reason)@ == PooledEventView::Refused(reason@),
        PooledEvent::Handed@ == PooledEventView::Handed,
        PooledEvent::Looked(complete)@ == PooledEventView::Looked(complete),
        PooledEvent::Sent@ == PooledEventView::Sent,
{
}

/// While a request is handled the event loop runs twice: first until there is a response, whether
/// the client is still there or not, and then until the handler and the streams are done, unless
/// the client goes away. In no other phase does it run.
pub proof fn event_loop_runs_twice(phase: FetchPhaseView, a: u16, b: u16, status: u16)
    ensures
        ({
            let responding = FetchPhaseView::Trigger.next(Ok(a));
            let completing = responding.next(Ok(b)).next(Ok(status));
            &&& responding.awaits() == Some((EventLoopExit::ResponseReady, false))
            &&& completing.awaits() == Some((EventLoopExit::FullyComplete, true))
        }),
        phase.awaits() is Some <==> phase is AwaitResponse || phase is AwaitCompletion,
{
}

} // verus!
