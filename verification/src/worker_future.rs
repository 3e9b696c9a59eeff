//! The event loop of a worker: when it goes on, and when it ends.
//!
//! The loop is polled. Each time, the messages that wait are handled first; then it is looked at
//! what the script has done.

use vstd::prelude::*;

use crate::stream_manager::{StreamId, StreamManager};

verus! {

/// What an event loop waits for.
#[derive(Debug, Clone, Copy, PartialEq, Eq, Structural)]
pub enum EventLoopExit {
    /// There is a response.
    ResponseReady,
    /// The handler is done.
    HandlerComplete,
    /// The response was streamed to its end.
    StreamsComplete,
    /// The handler and the streams are done.
    FullyComplete,
}

/// Whether what an event loop waits for is there.
pub open spec fn is_there(
    exit: EventLoopExit,
    response: bool,
    request_complete: bool,
    active_streams: u32,
) -> bool {
    match exit {
        EventLoopExit::ResponseReady => response,
        EventLoopExit::HandlerComplete => request_complete,
        EventLoopExit::StreamsComplete => active_streams == 0,
        EventLoopExit::FullyComplete => request_complete && active_streams == 0,
    }
}

/// Whether what an event loop waits for is there: `response` says whether there is a response,
/// `request_complete` whether the handler is done, and `active_streams` how many streams of the
/// response are open.
pub fn base_exit(
    exit: EventLoopExit,
    response: bool,
    request_complete: bool,
    active_streams: u32,
) -> (r: bool)
    ensures
        r == is_there(exit, response, request_complete, active_streams),
        r == (match exit {
            EventLoopExit::ResponseReady => response,
            EventLoopExit::HandlerComplete => request_complete,
            EventLoopExit::StreamsComplete => active_streams == 0,
            EventLoopExit::FullyComplete => request_complete && active_streams == 0,
        }),
{
    match exit {
        EventLoopExit::ResponseReady => response,
        EventLoopExit::HandlerComplete => request_complete,
        EventLoopExit::StreamsComplete => active_streams == 0,
        EventLoopExit::FullyComplete => request_complete && active_streams == 0,
    }
}

/// How a client that goes away is dealt with.
#[derive(Debug, Clone, Copy, PartialEq, Eq, Structural)]
pub struct AbortConfig {
    /// How long the script may go on after it was told, in nanoseconds.
    pub grace_period: u128,
}

/// What is seen of the script when its event loop is polled.
#[derive(Debug, Clone, Copy, PartialEq, Eq, Structural)]
pub struct Observation {
    /// Whether what the loop waits for is there.
    pub base_exit: bool,
    /// Whether the handler is done.
    pub request_complete: bool,
    /// How many streams of the response are open.
    pub active_streams: u32,
    /// The stream of the response.
    pub response_stream: Option<StreamId>,
}

/// What follows from it.
#[derive(Debug, Clone, Copy, PartialEq, Eq, Structural)]
pub struct ExitDecision {
    /// Tell the script that its client is gone.
    pub signal_disconnect: bool,
    /// Leave the loop.
    pub exit: bool,
}

/// The event loop of a worker.
#[derive(Debug, Clone, Copy, PartialEq, Eq, Structural)]
pub struct WorkerFuture {
    pub exit_condition: EventLoopExit,
    /// Whether, and how, a client that goes away is dealt with.
    pub abort_config: Option<AbortConfig>,
    /// When the script was told that its client is gone, in nanoseconds.
    pub abort_signaled_at: Option<u128>,
}

/// What happens to a loop that is polled.
pub enum PollInput {
    /// The poll begins. Whether the worker has to stop at once.
    Begin(bool),
    /// The messages that waited were handled, or that has failed.
    Drained(Result<(), String>),
    /// It was looked at what the script has done. Whether the loop is left.
    Checked(bool),
}

/// What is done next.
pub enum PollStep {
    /// Handle the messages that wait.
    Drain,
    /// Look at what the script has done.
    Check,
    /// The loop ends.
    Ready(Result<(), String>),
    /// The loop goes on when a message comes.
    Pending,
}

/// What is done next, with a message as characters.
pub enum PollStepView {
    Drain,
    Check,
    Ready(Result<(), Seq<char>>),
    Pending,
}

impl View for PollStep {
    type V = PollStepView;

    open spec fn view(&self) -> PollStepView {
        match self {
            PollStep::Drain => PollStepView::Drain,
            PollStep::Check => PollStepView::Check,
            PollStep::Ready(Ok(_)) => PollStepView::Ready(Ok(())),
            PollStep::Ready(Err(e)) => PollStepView::Ready(Err(e@)),
            PollStep::Pending => PollStepView::Pending,
        }
    }
}

/// What is done next when a loop is polled.
pub open spec fn polled(input: PollInput) -> PollStepView {
    match input {
        PollInput::Begin(true) => PollStepView::Ready(Err("Execution terminated"@)),
        PollInput::Begin(false) => PollStepView::Drain,
        PollInput::Drained(Err(e)) => PollStepView::Ready(Err(e@)),
        PollInput::Drained(Ok(_)) => PollStepView::Check,
        PollInput::Checked(true) => PollStepView::Ready(Ok(())),
        PollInput::Checked(false) => PollStepView::Pending,
    }
}

/// What is done next when a loop is polled.
pub fn poll_step(input: PollInput) -> (r: PollStep)
    ensures
        r@ == polled(input),
        match input {
            PollInput::Begin(true) => r matches PollStep::Ready(Err(e)) && e@
                == "Execution terminated"@,
            PollInput::Begin(false) => r is Drain,
            PollInput::Drained(Err(e)) => r == PollStep::Ready(Err(e)),
            PollInput::Drained(Ok(_)) => r is Check,
            PollInput::Checked(true) => r == PollStep::Ready(Ok(())),
            PollInput::Checked(false) => r is Pending,
        },
{
    match input {
        PollInput::Begin(terminated) => if terminated {
            PollStep::Ready(Err("Execution terminated".to_string()))
        } else {
            PollStep::Drain
        },
        PollInput::Drained(result) => match result {
            Err(e) => PollStep::Ready(Err(e)),
            Ok(()) => PollStep::Check,
        },
        PollInput::Checked(exit) => if exit {
            PollStep::Ready(Ok(()))
        } else {
            PollStep::Pending
        },
    }
}

impl WorkerFuture {
    /// Whether the client is seen to be gone: a stream of the response is open whose other end
    /// nobody writes to any more. `has_sender` says which streams somebody does.
    pub open spec fn sees_disconnect(self, seen: Observation, has_sender: Map<u64, u64>) -> bool {
        &&& self.abort_config is Some
        &&& self.abort_signaled_at is None
        &&& seen.active_streams > 0
        &&& seen.response_stream matches Some(id)
        &&& !has_sender.contains_key(id)
    }

    /// When the script was told, once the loop has looked at `now`.
    pub open spec fn told_at(
        self,
        seen: Observation,
        has_sender: Map<u64, u64>,
        now: u128,
    ) -> Option<u128> {
        if self.sees_disconnect(seen, has_sender) {
            Some(now)
        } else {
            self.abort_signaled_at
        }
    }

    /// Whether the time that the script has after it was told is over.
    pub open spec fn grace_exceeded(self, told: Option<u128>, now: u128) -> bool {
        self.abort_config matches Some(c) && told matches Some(t) && now - t > c.grace_period
    }

    /// Whether the loop is left.
    pub open spec fn exits(self, seen: Observation, has_sender: Map<u64, u64>, now: u128) -> bool {
        seen.base_exit || (seen.request_complete && self.grace_exceeded(
            self.told_at(seen, has_sender, now),
            now,
        ))
    }

    /// A loop that has not been polled.
    pub fn new(exit_condition: EventLoopExit, abort_config: Option<AbortConfig>) -> (r: Self)
        ensures
            r == (WorkerFuture { exit_condition, abort_config, abort_signaled_at: None }),
    {
        WorkerFuture { exit_condition, abort_config, abort_signaled_at: None }
    }

    /// Decides whether the loop is left, and whether the script has to be told that its client
    /// is gone. `now` is in nanoseconds.
    pub fn check_exit_with_abort(
        &mut self,
        seen: Observation,
        streams: &StreamManager,
        now: u128,
    ) -> (r: ExitDecision)
        ensures
            r.signal_disconnect == old(self).sees_disconnect(seen, streams@.senders),
            r.exit == old(self).exits(seen, streams@.senders, now),
            *final(self) == (WorkerFuture {
                abort_signaled_at: old(self).told_at(seen, streams@.senders, now),
                ..*old(self)
            }),
    {
        match self.abort_config {
            None => ExitDecision { signal_disconnect: false, exit: seen.base_exit },
            Some(config) => {
                let mut signal_disconnect = false;
                if seen.active_streams > 0 && self.abort_signaled_at.is_none() {
                    if let Some(id) = seen.response_stream {
                        if !streams.has_sender(id) {
                            signal_disconnect = true;
                        }
                    }
                }
                if signal_disconnect {
                    self.abort_signaled_at = Some(now);
                }
                let grace_exceeded = match self.abort_signaled_at {
                    Some(t) => now >= t && now - t > config.grace_period,
                    None => false,
                };
                ExitDecision {
                    signal_disconnect,
                    exit: seen.base_exit || (seen.request_complete && grace_exceeded),
                }
            },
        }
    }
}

/// A script is told that its client is gone at most once.
pub proof fn disconnect_is_signalled_once(
    f: WorkerFuture,
    first: Observation,
    first_senders: Map<u64, u64>,
    at: u128,
    second: Observation,
    second_senders: Map<u64, u64>,
)
    requires
        f.sees_disconnect(first, first_senders),
    ensures
        !(WorkerFuture { abort_signaled_at: f.told_at(first, first_senders, at), ..f })
            .sees_disconnect(second, second_senders),
{
}

/// A loop that deals with clients that go away is left, even with open streams, once the handler
/// is done and the time that the script had is over.
pub proof fn grace_period_ends(
    f: WorkerFuture,
    config: AbortConfig,
    told: u128,
    seen: Observation,
    has_sender: Map<u64, u64>,
    now: u128,
)
    requires
        f.abort_config == Some(config),
        f.abort_signaled_at == Some(told),
        seen.request_complete,
        now - told > config.grace_period,
    ensures
        f.exits(seen, has_sender, now),
{
}

/// A loop is not left before the handler is done, however long ago its client went away, unless
/// what it waits for is there.
pub proof fn handler_is_waited_for(
    f: WorkerFuture,
    seen: Observation,
    has_sender: Map<u64, u64>,
    now: u128,
)
    requires
        !seen.base_exit,
        !seen.request_complete,
    ensures
        !f.exits(seen, has_sender, now),
{
}

/// The script is told that its client is gone exactly where that is wanted, where it was not told
/// before, and where the response has open streams and nobody writes to its stream any more. From
/// then on it is known when it was told; before, nothing changes.
pub proof fn disconnect_is_seen(
    f: WorkerFuture,
    seen: Observation,
    has_sender: Map<u64, u64>,
    now: u128,
)
    ensures
        f.sees_disconnect(seen, has_sender) <==> f.abort_config is Some && f.abort_signaled_at
            is None && seen.active_streams > 0 && seen.response_stream is Some
            && !has_sender.contains_key(seen.response_stream->0),
        f.sees_disconnect(seen, has_sender) ==> f.told_at(seen, has_sender, now) == Some(now),
        !f.sees_disconnect(seen, has_sender) ==> f.told_at(seen, has_sender, now)
            == f.abort_signaled_at,
{
}

/// The loop is left where what it waits for is there; besides, once the handler is done and more
/// time has passed than the script had since it was told that its client is gone; and else it goes
/// on. So a loop that does not deal with clients that go away waits for what it waits for, and so
/// does one whose script has just been told or was never told.
pub proof fn loop_is_left_in_time(
    f: WorkerFuture,
    seen: Observation,
    has_sender: Map<u64, u64>,
    now: u128,
)
    ensures
        seen.base_exit ==> f.exits(seen, has_sender, now),
        f.abort_config is None || f.abort_signaled_at is None ==> f.exits(seen, has_sender, now)
            == seen.base_exit,
        f.abort_config is Some && f.abort_signaled_at is Some ==> (f.exits(seen, has_sender, now)
            <==> seen.base_exit || (seen.request_complete && now > f.abort_signaled_at->0
            + f.abort_config->0.grace_period)),
{
}

/// A loop that waits for the handler and the streams waits for both, one that waits for either for
/// that one, and one that waits for a response for the response alone.
pub proof fn loops_wait_for_what_they_are_for(
    response: bool,
    request_complete: bool,
    active_streams: u32,
)
    ensures
        is_there(EventLoopExit::ResponseReady, response, request_complete, active_streams)
            == response,
        is_there(EventLoopExit::HandlerComplete, response, request_complete, active_streams)
            == request_complete,
        is_there(EventLoopExit::StreamsComplete, response, request_complete, active_streams) <==> (
        active_streams == 0),
        is_there(EventLoopExit::FullyComplete, response, request_complete, active_streams)
            <==> is_there(
            EventLoopExit::HandlerComplete,
            response,
            request_complete,
            active_streams,
        ) && is_there(
            EventLoopExit::StreamsComplete,
            response,
            request_complete,
            active_streams,
        ),
{
}

/// A poll handles the messages that wait, then looks at what the script has done, and then ends the
/// loop or lets it wait; a worker that has to stop, and a failure, end the loop at once, with why.
pub proof fn polls_drain_before_they_check(e: String)
    ensures
        polled(PollInput::Begin(false)) == PollStepView::Drain,
        polled(PollInput::Drained(Ok(()))) == PollStepView::Check,
        polled(PollInput::Checked(true)) == PollStepView::Ready(Ok(())),
        polled(PollInput::Checked(false)) == PollStepView::Pending,
        polled(PollInput::Begin(true)) == PollStepView::Ready(Err("Execution terminated"@)),
        polled(PollInput::Drained(Err(e))) == PollStepView::Ready(Err(e@)),
{
}

} // verus!
