//! The event loop of a worker: timers, operations of the host, and the streams of responses.
//!
//! The loop itself decides; sleeping, performing operations and sending messages are the
//! caller's part. [`EventLoop::on_message`] and [`EventLoop::on_timer`] say what to do next.

use std::collections::HashSet;

use bytes::Bytes;
use tokio::sync::mpsc::Receiver;
use vstd::multiset::Multiset;
use vstd::prelude::*;

use crate::operations::{
    CallbackId, CallbackMessage, DatabaseResult, HttpResponseMeta, KvResult, Operation,
    OperationResult, SchedulerMessage, StorageResult,
};
use crate::chunk_channel::{max_capacity, StreamChunk};
use crate::stream_manager::{
    lookup, ReadView, StreamId, StreamManager, StreamsView, WaitingWrite, WriteOutcome,
};
use crate::task::{HttpResponse, ResponseBody};

verus! {

broadcast use vstd::std_specs::hash::group_hash_axioms;

/// A timer that is running.
#[derive(Debug, Clone, Copy, PartialEq, Eq, Structural)]
pub struct Timer {
    pub id: CallbackId,
    pub is_interval: bool,
    pub interval_ms: u64,
}

/// Where the answer to an operation goes.
#[derive(Debug, Clone, Copy, PartialEq, Eq, Structural)]
pub enum Reply {
    /// To a request; the body of the response becomes a stream.
    Fetch(CallbackId),
    /// To an operation on a storage binding.
    Storage(CallbackId),
    /// To an operation on a key-value binding.
    Kv(CallbackId),
    /// To an operation on a database binding.
    Database(CallbackId),
    /// To a call of another worker.
    Worker(CallbackId),
    /// Nowhere.
    Nowhere,
}

/// What the loop wants done.
pub enum LoopAction {
    /// Run a timer.
    StartTimer(Timer),
    /// Tell the script.
    Send(CallbackMessage),
    /// Perform an operation and hand the answer on.
    Perform(Reply, Operation),
    /// Read from a stream for a script.
    ReadStream(CallbackId, StreamId),
    /// Close a stream.
    CloseStream(StreamId),
    /// Carry out a message about a web socket.
    WebSocket(SchedulerMessage),
}

/// What follows from an event.
pub struct LoopStep {
    /// What has to be done, in this order.
    pub actions: Vec<LoopAction>,
    /// Whether the loop ends.
    pub exit: bool,
}

/// The state of the event loop.
pub struct EventLoop {
    /// The timers that are running.
    pub timers: Vec<Timer>,
    /// Timers that must not reach the script any more.
    pub cancelled: HashSet<u64>,
    /// Whether the loop was asked to end.
    pub shutdown: bool,
}

/// What there is to know about the event loop.
pub struct LoopView {
    pub timers: Multiset<Timer>,
    pub cancelled: Set<u64>,
    pub shutdown: bool,
}

impl View for EventLoop {
    type V = LoopView;

    open spec fn view(&self) -> LoopView {
        LoopView {
            timers: self.timers@.to_multiset(),
            cancelled: self.cancelled@,
            shutdown: self.shutdown,
        }
    }
}

impl LoopView {
    /// A new timer runs; whatever its number was cancelled for is forgotten.
    pub open spec fn schedule(self, t: Timer) -> LoopView {
        LoopView { timers: self.timers.insert(t), cancelled: self.cancelled.remove(t.id), ..self }
    }

    /// Whether the loop ends where it gets to decide.
    pub open spec fn over(self) -> bool {
        self.shutdown && self.timers.len() == 0
    }

    /// The loop after a message.
    pub open spec fn after_message(self, msg: SchedulerMessage) -> LoopView {
        match msg {
            SchedulerMessage::ScheduleTimeout(id, ms) => self.schedule(
                Timer { id, is_interval: false, interval_ms: ms },
            ),
            SchedulerMessage::ScheduleInterval(id, ms) => self.schedule(
                Timer { id, is_interval: true, interval_ms: ms },
            ),
            SchedulerMessage::ClearTimer(id) => LoopView {
                cancelled: self.cancelled.insert(id),
                ..self
            },
            SchedulerMessage::Shutdown => LoopView { shutdown: true, ..self },
            _ => self,
        }
    }

    /// The loop after a timer has run out. An interval starts over unless it was cancelled.
    pub open spec fn after_timer(self, t: Timer) -> LoopView {
        if self.cancelled.contains(t.id) {
            LoopView {
                timers: self.timers.remove(t),
                cancelled: self.cancelled.remove(t.id),
                ..self
            }
        } else if t.is_interval {
            self
        } else {
            LoopView { timers: self.timers.remove(t), ..self }
        }
    }
}

/// What a message asks to be done.
pub open spec fn message_actions(msg: SchedulerMessage) -> Seq<LoopAction> {
    match msg {
        SchedulerMessage::ScheduleTimeout(id, ms) => seq![
            LoopAction::StartTimer(Timer { id, is_interval: false, interval_ms: ms }),
        ],
        SchedulerMessage::ScheduleInterval(id, ms) => seq![
            LoopAction::StartTimer(Timer { id, is_interval: true, interval_ms: ms }),
        ],
        SchedulerMessage::ClearTimer(_) => seq![],
        SchedulerMessage::FetchStreaming(id, request) => seq![
            LoopAction::Perform(Reply::Fetch(id), Operation::Fetch(request)),
        ],
        SchedulerMessage::BindingFetch(id, binding, request) => seq![
            LoopAction::Perform(Reply::Fetch(id), Operation::BindingFetch(binding, request)),
        ],
        SchedulerMessage::BindingStorage(id, binding, op) => seq![
            LoopAction::Perform(Reply::Storage(id), Operation::BindingStorage(binding, op)),
        ],
        SchedulerMessage::BindingKv(id, binding, op) => seq![
            LoopAction::Perform(Reply::Kv(id), Operation::BindingKv(binding, op)),
        ],
        SchedulerMessage::BindingDatabase(id, binding, op) => seq![
            LoopAction::Perform(Reply::Database(id), Operation::BindingDatabase(binding, op)),
        ],
        SchedulerMessage::BindingWorker(id, binding, request) => seq![
            LoopAction::Perform(Reply::Worker(id), Operation::BindingWorker(binding, request)),
        ],
        SchedulerMessage::StreamRead(id, stream) => seq![LoopAction::ReadStream(id, stream)],
        SchedulerMessage::StreamCancel(stream) => seq![LoopAction::CloseStream(stream)],
        SchedulerMessage::Log(level, message) => seq![
            LoopAction::Perform(Reply::Nowhere, Operation::Log(level, message)),
        ],
        SchedulerMessage::Shutdown => seq![],
        _ => seq![LoopAction::WebSocket(msg)],
    }
}

/// What a timer that has run out asks to be done.
pub open spec fn timer_actions(v: LoopView, t: Timer) -> Seq<LoopAction> {
    if v.cancelled.contains(t.id) {
        seq![]
    } else if t.is_interval {
        seq![
            LoopAction::Send(CallbackMessage::ExecuteInterval(t.id)),
            LoopAction::StartTimer(t),
        ]
    } else {
        seq![LoopAction::Send(CallbackMessage::ExecuteTimeout(t.id))]
    }
}

impl EventLoop {
    /// A loop without timers.
    pub fn new() -> (r: Self)
        ensures
            r@ == (LoopView { timers: Multiset::empty(), cancelled: Set::empty(), shutdown: false }),
    {
        let r = EventLoop { timers: Vec::new(), cancelled: HashSet::new(), shutdown: false };
        proof {
            r.timers@.to_multiset_ensures();
            assert(r.timers@.to_multiset() =~= Multiset::empty());
        }
        r
    }

    /// A new timer runs.
    fn schedule(&mut self, id: CallbackId, interval_ms: u64, is_interval: bool) -> (r: LoopAction)
        ensures
            final(self)@ == old(self)@.schedule(Timer { id, is_interval, interval_ms }),
            r == LoopAction::StartTimer(Timer { id, is_interval, interval_ms }),
    {
        let timer = Timer { id, is_interval, interval_ms };
        let _was = self.cancelled.remove(&id);
        assert(self.cancelled@ =~= old(self).cancelled@.remove(id));
        proof {
            self.timers@.to_multiset_ensures();
        }
        self.timers.push(timer);
        LoopAction::StartTimer(timer)
    }

    /// Whether the loop ends where it gets to decide.
    fn is_over(&self) -> (r: bool)
        ensures
            r == self@.over(),
    {
        proof {
            self.timers@.to_multiset_ensures();
        }
        self.shutdown && self.timers.len() == 0
    }

    /// What follows from a message; without one the channel is closed and the loop ends.
    pub fn on_message(&mut self, msg: Option<SchedulerMessage>) -> (r: LoopStep)
        ensures
            match msg {
                Some(m) => {
                    &&& final(self)@ == old(self)@.after_message(m)
                    &&& r.actions@ == message_actions(m)
                    &&& r.exit == final(self)@.over()
                },
                None => final(self)@ == old(self)@ && r.actions@.len() == 0 && r.exit,
            },
    {
        let mut actions: Vec<LoopAction> = Vec::new();
        let msg = match msg {
            Some(m) => m,
            None => {
                return LoopStep { actions, exit: true };
            },
        };
        match msg {
            SchedulerMessage::ScheduleTimeout(id, ms) => {
                let a = self.schedule(id, ms, false);
                actions.push(a);
            },
            SchedulerMessage::ScheduleInterval(id, ms) => {
                let a = self.schedule(id, ms, true);
                actions.push(a);
            },
            SchedulerMessage::ClearTimer(id) => {
                let _new = self.cancelled.insert(id);
                assert(self.cancelled@ =~= old(self).cancelled@.insert(id));
            },
            SchedulerMessage::FetchStreaming(id, request) => {
                actions.push(LoopAction::Perform(Reply::Fetch(id), Operation::Fetch(request)));
            },
            SchedulerMessage::BindingFetch(id, binding, request) => {
                actions.push(
                    LoopAction::Perform(
                        Reply::Fetch(id),
                        Operation::BindingFetch(binding, request),
                    ),
                );
            },
            SchedulerMessage::BindingStorage(id, binding, op) => {
                actions.push(
                    LoopAction::Perform(
                        Reply::Storage(id),
                        Operation::BindingStorage(binding, op),
                    ),
                );
            },
            SchedulerMessage::BindingKv(id, binding, op) => {
                actions.push(
                    LoopAction::Perform(Reply::Kv(id), Operation::BindingKv(binding, op)),
                );
            },
            SchedulerMessage::BindingDatabase(id, binding, op) => {
                actions.push(
                    LoopAction::Perform(
                        Reply::Database(id),
                        Operation::BindingDatabase(binding, op),
                    ),
                );
            },
            SchedulerMessage::BindingWorker(id, binding, request) => {
                actions.push(
                    LoopAction::Perform(
                        Reply::Worker(id),
                        Operation::BindingWorker(binding, request),
                    ),
                );
            },
            SchedulerMessage::StreamRead(id, stream) => {
                actions.push(LoopAction::ReadStream(id, stream));
            },
            SchedulerMessage::StreamCancel(stream) => {
                actions.push(LoopAction::CloseStream(stream));
            },
            SchedulerMessage::Log(level, message) => {
                actions.push(
                    LoopAction::Perform(Reply::Nowhere, Operation::Log(level, message)),
                );
            },
            SchedulerMessage::Shutdown => {
                self.shutdown = true;
            },
            other => {
                actions.push(LoopAction::WebSocket(other));
            },
        }
        let exit = self.is_over();
        LoopStep { actions, exit }
    }

    /// What follows from a timer that has run out. A cancelled one is only forgotten. After a
    /// shutdown the loop ends where it was the last, cancelled or not.
    pub fn on_timer(&mut self, timer: Timer) -> (r: LoopStep)
        requires
            old(self)@.timers.contains(timer),
        ensures
            final(self)@ == old(self)@.after_timer(timer),
            r.actions@ == timer_actions(old(self)@, timer),
            r.exit == final(self)@.over(),
    {
        let mut actions: Vec<LoopAction> = Vec::new();
        proof {
            self.timers@.to_multiset_ensures();
        }
        if self.cancelled.remove(&timer.id) {
            assert(self.cancelled@ =~= old(self).cancelled@.remove(timer.id));
            self.forget(timer);
            let exit = self.is_over();
            return LoopStep { actions, exit };
        }
        assert(self.cancelled@ =~= old(self).cancelled@);
        if timer.is_interval {
            actions.push(LoopAction::Send(CallbackMessage::ExecuteInterval(timer.id)));
            actions.push(LoopAction::StartTimer(timer));
        } else {
            self.forget(timer);
            actions.push(LoopAction::Send(CallbackMessage::ExecuteTimeout(timer.id)));
        }
        let exit = self.is_over();
        LoopStep { actions, exit }
    }

    /// A running timer is gone.
    fn forget(&mut self, timer: Timer)
        requires
            old(self)@.timers.contains(timer),
        ensures
            final(self)@ == (LoopView { timers: old(self)@.timers.remove(timer), ..old(self)@ }),
    {
        proof {
            self.timers@.to_multiset_ensures();
        }
        let mut i: usize = 0;
        while i < self.timers.len() && self.timers[i] != timer
            invariant
                i <= self.timers.len(),
                self.timers@.contains(timer),
                *self == *old(self),
                forall|j: int| 0 <= j < i ==> self.timers@[j] != timer,
            decreases self.timers.len() - i,
        {
            i += 1;
        }
        let _gone = self.timers.remove(i);
    }
}

/// The reason phrase of an HTTP status; empty where there is none to give.
pub open spec fn reason_phrase(status: u16) -> Seq<char> {
    if status == 100 {
        "Continue"@
    } else if status == 101 {
        "Switching Protocols"@
    } else if status == 200 {
        "OK"@
    } else if status == 201 {
        "Created"@
    } else if status == 202 {
        "Accepted"@
    } else if status == 204 {
        "No Content"@
    } else if status == 206 {
        "Partial Content"@
    } else if status == 301 {
        "Moved Permanently"@
    } else if status == 302 {
        "Found"@
    } else if status == 303 {
        "See Other"@
    } else if status == 304 {
        "Not Modified"@
    } else if status == 307 {
        "Temporary Redirect"@
    } else if status == 308 {
        "Permanent Redirect"@
    } else if status == 400 {
        "Bad Request"@
    } else if status == 401 {
        "Unauthorized"@
    } else if status == 403 {
        "Forbidden"@
    } else if status == 404 {
        "Not Found"@
    } else if status == 405 {
        "Method Not Allowed"@
    } else if status == 408 {
        "Request Timeout"@
    } else if status == 409 {
        "Conflict"@
    } else if status == 410 {
        "Gone"@
    } else if status == 413 {
        "Payload Too Large"@
    } else if status == 415 {
        "Unsupported Media Type"@
    } else if status == 422 {
        "Unprocessable Entity"@
    } else if status == 429 {
        "Too Many Requests"@
    } else if status == 500 {
        "Internal Server Error"@
    } else if status == 501 {
        "Not Implemented"@
    } else if status == 502 {
        "Bad Gateway"@
    } else if status == 503 {
        "Service Unavailable"@
    } else if status == 504 {
        "Gateway Timeout"@
    } else {
        Seq::empty()
    }
}

/// The reason phrase of an HTTP status; empty where there is none to give.
pub fn status_text(status: u16) -> (r: String)
    ensures
        r@ == reason_phrase(status),
{
    let text = match status {
        100 => "Continue",
        101 => "Switching Protocols",
        200 => "OK",
        201 => "Created",
        202 => "Accepted",
        204 => "No Content",
        206 => "Partial Content",
        301 => "Moved Permanently",
        302 => "Found",
        303 => "See Other",
        304 => "Not Modified",
        307 => "Temporary Redirect",
        308 => "Permanent Redirect",
        400 => "Bad Request",
        401 => "Unauthorized",
        403 => "Forbidden",
        404 => "Not Found",
        405 => "Method Not Allowed",
        408 => "Request Timeout",
        409 => "Conflict",
        410 => "Gone",
        413 => "Payload Too Large",
        415 => "Unsupported Media Type",
        422 => "Unprocessable Entity",
        429 => "Too Many Requests",
        500 => "Internal Server Error",
        501 => "Not Implemented",
        502 => "Bad Gateway",
        503 => "Service Unavailable",
        504 => "Gateway Timeout",
        _ => {
            return String::new();
        },
    };
    text.to_string()
}

/// A response whose body has become a stream.
pub struct OpenedResponse {
    pub meta: HttpResponseMeta,
    pub stream_id: StreamId,
    /// The end of the body, where the stream had no room for it.
    pub waiting: Option<WaitingWrite>,
    /// Where the rest of the body comes from.
    pub source: Option<Receiver<Result<Bytes, String>>>,
}

/// The streams after a complete body, or none, was written to a new stream for `url`, as far
/// as there was room.
pub open spec fn with_body(s: StreamsView, url: Seq<char>, body: ResponseBody) -> StreamsView {
    let created = s.create(url);
    match body {
        ResponseBody::Empty => created.write(s.next_id, StreamChunk::Done).0,
        ResponseBody::Bytes(b) => {
            let written = created.write(s.next_id, StreamChunk::Data(b)).0;
            written.write(s.next_id, StreamChunk::Done).0
        },
        ResponseBody::Stream(_) => created,
    }
}

/// The streams with one more writer that waits on channel `k`.
pub open spec fn with_waiting(s: StreamsView, k: u64) -> StreamsView {
    StreamsView {
        channels: s.channels.insert(
            k,
            crate::stream_manager::ChannelView { writers: s.channels[k].writers + 1, ..s.channels[k] },
        ),
        ..s
    }
}

/// Whether a new stream can be created.
pub open spec fn can_create(m: StreamManager) -> bool {
    &&& m.wf()
    &&& 0 < m.high_water_mark <= max_capacity()
    &&& m.next_id < u64::MAX
    &&& m.next_channel < u64::MAX
}

/// Makes a stream for `url` out of the body of a response.
pub fn open_response(
    response: HttpResponse,
    status_text: String,
    url: String,
    streams: &mut StreamManager,
) -> (r: OpenedResponse)
    requires
        can_create(*old(streams)),
    ensures
        final(streams).wf(),
        r.meta.status == response.status,
        r.meta.status_text == status_text,
        r.meta.headers == response.headers,
        r.stream_id == old(streams).next_id,
        match r.waiting {
            None => final(streams)@ == with_body(old(streams)@, url@, response.body),
            Some(w) => {
                &&& w.stream_id == r.stream_id
                &&& w.channel == old(streams).next_channel
                &&& w.chunk is Done
                &&& final(streams)@.write_waits(w.channel)
                &&& final(streams)@ == with_waiting(
                    with_body(old(streams)@, url@, response.body),
                    w.channel,
                )
            },
        },
        r.waiting is Some <==> response.body is Bytes && old(streams).high_water_mark == 1,
        match response.body {
            ResponseBody::Stream(rx) => r.source == Some(rx),
            _ => r.source is None,
        },
{
    let meta = HttpResponseMeta {
        status: response.status,
        status_text,
        headers: response.headers,
    };
    let stream_id: u64 = streams.create_stream(url);
    let mut waiting: Option<WaitingWrite> = None;
    let mut source: Option<Receiver<Result<Bytes, String>>> = None;
    match response.body {
        ResponseBody::Empty => {
            let _done = streams.write_chunk(stream_id, StreamChunk::Done);
        },
        ResponseBody::Bytes(bytes) => {
            let _done = streams.write_chunk(stream_id, StreamChunk::Data(bytes));
            if let WriteOutcome::Wait(w) = streams.write_chunk(stream_id, StreamChunk::Done) {
                waiting = Some(w);
            }
        },
        ResponseBody::Stream(rx) => {
            source = Some(rx);
        },
    }
    OpenedResponse { meta, stream_id, waiting, source }
}

/// Why an answer to a request is no response.
pub open spec fn fetch_failure(result: OperationResult) -> Option<Seq<char>> {
    match result {
        OperationResult::Http(Ok(_)) => None,
        OperationResult::Http(Err(e)) => Some(e@),
        OperationResult::Ack => Some("Unexpected Ack result for fetch"@),
        OperationResult::Storage(_) => Some("Unexpected Storage result for fetch"@),
        OperationResult::Kv(_) => Some("Unexpected Kv result for fetch"@),
        OperationResult::Database(_) => Some("Unexpected Database result for fetch"@),
    }
}

/// Makes a stream out of the answer to a request. Fails where the answer is an error, or no
/// response at all.
pub fn convert_fetch_result_to_stream(
    result: OperationResult,
    streams: &mut StreamManager,
) -> (r: Result<OpenedResponse, String>)
    requires
        old(streams).wf(),
        fetch_failure(result) is None ==> can_create(*old(streams)),
    ensures
        final(streams).wf(),
        match fetch_failure(result) {
            Some(message) => {
                &&& r matches Err(e)
                &&& e@ == message
                &&& final(streams)@ == old(streams)@
            },
            None => {
                let response = result->Http_0->Ok_0;
                &&& r matches Ok(o)
                &&& o.meta.status == response.status
                &&& o.meta.status_text@ == reason_phrase(response.status)
                &&& o.meta.headers == response.headers
                &&& o.stream_id == old(streams).next_id
                &&& o.waiting is Some <==> response.body is Bytes && old(streams).high_water_mark
                    == 1
                &&& final(streams)@ == match o.waiting {
                    None => with_body(old(streams)@, "ops_fetch"@, response.body),
                    Some(w) => with_waiting(
                        with_body(old(streams)@, "ops_fetch"@, response.body),
                        w.channel,
                    ),
                }
                &&& o.waiting matches Some(w) ==> w.stream_id == o.stream_id && w.chunk is Done
                    && w.channel == old(streams).next_channel && final(streams)@.write_waits(w.channel)
                &&& o.source == (match response.body {
                    ResponseBody::Stream(rx) => Some(rx),
                    _ => None,
                })
            },
        },
{
    let response = match result {
        OperationResult::Http(Ok(response)) => response,
        OperationResult::Http(Err(e)) => {
            return Err(e);
        },
        OperationResult::Ack => {
            return Err("Unexpected Ack result for fetch".to_string());
        },
        OperationResult::Storage(_) => {
            return Err("Unexpected Storage result for fetch".to_string());
        },
        OperationResult::Kv(_) => {
            return Err("Unexpected Kv result for fetch".to_string());
        },
        OperationResult::Database(_) => {
            return Err("Unexpected Database result for fetch".to_string());
        },
    };
    let text = status_text(response.status);
    Ok(open_response(response, text, "ops_fetch".to_string(), streams))
}

/// Why an answer of another worker is no response.
pub open spec fn worker_failure(result: OperationResult) -> Option<Seq<char>> {
    match result {
        OperationResult::Http(Ok(_)) => None,
        OperationResult::Http(Err(e)) => Some(e@),
        _ => Some("Unexpected result type for worker binding"@),
    }
}

/// Makes a stream out of the answer of another worker. Its responses carry no reason phrase.
pub fn convert_worker_result_to_stream(
    result: OperationResult,
    streams: &mut StreamManager,
) -> (r: Result<OpenedResponse, String>)
    requires
        old(streams).wf(),
        worker_failure(result) is None ==> can_create(*old(streams)),
    ensures
        final(streams).wf(),
        match worker_failure(result) {
            Some(message) => {
                &&& r matches Err(e)
                &&& e@ == message
                &&& final(streams)@ == old(streams)@
            },
            None => {
                let response = result->Http_0->Ok_0;
                &&& r matches Ok(o)
                &&& o.meta.status == response.status
                &&& o.meta.status_text@ == Seq::<char>::empty()
                &&& o.meta.headers == response.headers
                &&& o.stream_id == old(streams).next_id
                &&& o.waiting is Some <==> response.body is Bytes && old(streams).high_water_mark
                    == 1
                &&& final(streams)@ == match o.waiting {
                    None => with_body(old(streams)@, "worker_binding"@, response.body),
                    Some(w) => with_waiting(
                        with_body(old(streams)@, "worker_binding"@, response.body),
                        w.channel,
                    ),
                }
                &&& o.waiting matches Some(w) ==> w.stream_id == o.stream_id && w.chunk is Done
                    && w.channel == old(streams).next_channel && final(streams)@.write_waits(w.channel)
                &&& o.source == (match response.body {
                    ResponseBody::Stream(rx) => Some(rx),
                    _ => None,
                })
            },
        },
{
    match result {
        OperationResult::Http(Ok(response)) => Ok(
            open_response(response, String::new(), "worker_binding".to_string(), streams),
        ),
        OperationResult::Http(Err(e)) => Err(e),
        _ => Err("Unexpected result type for worker binding".to_string()),
    }
}

/// The message about an answer of the wrong kind.
pub const UNEXPECTED_RESULT: &'static str = "Unexpected result type";

/// What a script is told about the answer to an operation on a storage binding.
pub fn storage_reply(id: CallbackId, result: OperationResult) -> (r: CallbackMessage)
    ensures
        match result {
            OperationResult::Storage(s) => r == CallbackMessage::StorageResult(id, s),
            _ => r matches CallbackMessage::StorageResult(i, StorageResult::Error(m)) && i == id
                && m@ == UNEXPECTED_RESULT@,
        },
{
    match result {
        OperationResult::Storage(s) => CallbackMessage::StorageResult(id, s),
        _ => CallbackMessage::StorageResult(
            id,
            StorageResult::Error(UNEXPECTED_RESULT.to_string()),
        ),
    }
}

/// What a script is told about the answer to an operation on a key-value binding.
pub fn kv_reply(id: CallbackId, result: OperationResult) -> (r: CallbackMessage)
    ensures
        match result {
            OperationResult::Kv(k) => r == CallbackMessage::KvResult(id, k),
            _ => r matches CallbackMessage::KvResult(i, KvResult::Error(m)) && i == id && m@
                == UNEXPECTED_RESULT@,
        },
{
    match result {
        OperationResult::Kv(k) => CallbackMessage::KvResult(id, k),
        _ => CallbackMessage::KvResult(id, KvResult::Error(UNEXPECTED_RESULT.to_string())),
    }
}

/// What a script is told about the answer to an operation on a database binding.
pub fn database_reply(id: CallbackId, result: OperationResult) -> (r: CallbackMessage)
    ensures
        match result {
            OperationResult::Database(d) => r == CallbackMessage::DatabaseResult(id, d),
            _ => r matches CallbackMessage::DatabaseResult(i, DatabaseResult::Error(m)) && i == id
                && m@ == UNEXPECTED_RESULT@,
        },
{
    match result {
        OperationResult::Database(d) => CallbackMessage::DatabaseResult(id, d),
        _ => CallbackMessage::DatabaseResult(
            id,
            DatabaseResult::Error(UNEXPECTED_RESULT.to_string()),
        ),
    }
}

/// What a script is told about a chunk that it read; a failed read is a failed stream.
pub fn stream_reply(id: CallbackId, read: Result<StreamChunk, String>) -> (r: CallbackMessage)
    ensures
        match read {
            Ok(chunk) => r == CallbackMessage::StreamChunk(id, chunk),
            Err(e) => r == CallbackMessage::StreamChunk(id, StreamChunk::Error(e)),
        },
{
    match read {
        Ok(chunk) => CallbackMessage::StreamChunk(id, chunk),
        Err(e) => CallbackMessage::StreamChunk(id, StreamChunk::Error(e)),
    }
}

/// Clearing a timer keeps it from the script: when it runs out nothing is sent and it does not
/// start over, and only this one time.
pub proof fn cleared_timer_stays_silent(v: LoopView, t: Timer)
    requires
        v.timers.contains(t),
    ensures
        ({
            let cleared = v.after_message(SchedulerMessage::ClearTimer(t.id));
            &&& timer_actions(cleared, t).len() == 0
            &&& cleared.after_timer(t).timers == v.timers.remove(t)
            &&& !cleared.after_timer(t).cancelled.contains(t.id)
        }),
{
}

/// Something that happens to an event loop.
pub enum LoopEvent {
    Message(SchedulerMessage),
    /// A timer has run out.
    Timer(Timer),
}

impl LoopEvent {
    /// Whether this schedules a timer with the number `id`.
    pub open spec fn schedules(self, id: CallbackId) -> bool {
        match self {
            LoopEvent::Message(SchedulerMessage::ScheduleTimeout(i, _)) => i == id,
            LoopEvent::Message(SchedulerMessage::ScheduleInterval(i, _)) => i == id,
            _ => false,
        }
    }
}

impl LoopView {
    /// The loop after an event. Only a timer that runs can run out.
    pub open spec fn after(self, event: LoopEvent) -> LoopView {
        match event {
            LoopEvent::Message(msg) => self.after_message(msg),
            LoopEvent::Timer(t) => if self.timers.contains(t) {
                self.after_timer(t)
            } else {
                self
            },
        }
    }

    /// What an event asks to be done.
    pub open spec fn actions(self, event: LoopEvent) -> Seq<LoopAction> {
        match event {
            LoopEvent::Message(msg) => message_actions(msg),
            LoopEvent::Timer(t) => if self.timers.contains(t) {
                timer_actions(self, t)
            } else {
                seq![]
            },
        }
    }

    /// The loop after all of `events`, one after the other.
    pub open spec fn after_all(self, events: Seq<LoopEvent>) -> LoopView
        decreases events.len(),
    {
        if events.len() == 0 {
            self
        } else {
            self.after_all(events.drop_last()).after(events.last())
        }
    }

    /// Whether at most one timer with the number `id` runs.
    pub open spec fn one_timer(self, id: CallbackId) -> bool {
        &&& forall|t: Timer| t.id == id ==> #[trigger] self.timers.count(t) <= 1
        &&& forall|t: Timer, u: Timer|
            t.id == id && u.id == id && #[trigger] self.timers.count(t) > 0
                && #[trigger] self.timers.count(u) > 0 ==> t == u
    }

    /// Whether no timer with the number `id` will reach the script: none runs, or the only one is
    /// cancelled.
    spec fn silent(self, id: CallbackId) -> bool {
        ||| forall|t: Timer| t.id == id ==> #[trigger] self.timers.count(t) == 0
        ||| self.cancelled.contains(id) && self.one_timer(id)
    }
}

/// Whether an action is about a timer with the number `id`: it reaches the script, or starts.
pub open spec fn concerns_timer(action: LoopAction, id: CallbackId) -> bool {
    match action {
        LoopAction::Send(CallbackMessage::ExecuteTimeout(i)) => i == id,
        LoopAction::Send(CallbackMessage::ExecuteInterval(i)) => i == id,
        LoopAction::StartTimer(t) => t.id == id,
        _ => false,
    }
}

/// What is silent stays silent until it is scheduled again.
proof fn silence_is_kept(v: LoopView, event: LoopEvent, id: CallbackId)
    requires
        v.silent(id),
        !event.schedules(id),
    ensures
        v.after(event).silent(id),
        forall|i: int|
            0 <= i < v.actions(event).len() ==> !concerns_timer(
                #[trigger] v.actions(event)[i],
                id,
            ),
{
    let w = v.after(event);
    match event {
        LoopEvent::Timer(t) => {
            if v.timers.contains(t) && t.id == id {
                assert(v.timers.count(t) == 1);
                assert forall|u: Timer| u.id == id implies #[trigger] w.timers.count(u) == 0 by {
                    if v.timers.count(u) > 0 {
                        assert(u == t);
                    }
                }
            } else {
                assert forall|u: Timer| u.id == id implies #[trigger] w.timers.count(u)
                    == v.timers.count(u) by {}
            }
        },
        LoopEvent::Message(_) => {
            assert forall|u: Timer| u.id == id implies #[trigger] w.timers.count(u)
                == v.timers.count(u) by {}
        },
    }
}

/// Once a timer is cleared it never reaches the script again and never starts over, whatever
/// happens, until a timer with its number is scheduled anew. Its number has to be its own: of two
/// running timers with one number clearing silences the one that runs out first.
pub proof fn cleared_timer_stays_silent_for_good(
    v: LoopView,
    id: CallbackId,
    events: Seq<LoopEvent>,
    next: LoopEvent,
)
    requires
        v.one_timer(id),
        forall|i: int| 0 <= i < events.len() ==> !(#[trigger] events[i]).schedules(id),
        !next.schedules(id),
    ensures
        ({
            let then = v.after_message(SchedulerMessage::ClearTimer(id)).after_all(events);
            forall|i: int|
                0 <= i < then.actions(next).len() ==> !concerns_timer(
                    #[trigger] then.actions(next)[i],
                    id,
                )
        }),
{
    let cleared = v.after_message(SchedulerMessage::ClearTimer(id));
    silent_after_all(cleared, id, events);
    silence_is_kept(cleared.after_all(events), next, id);
}

/// What is silent stays silent through many events.
proof fn silent_after_all(v: LoopView, id: CallbackId, events: Seq<LoopEvent>)
    requires
        v.silent(id),
        forall|i: int| 0 <= i < events.len() ==> !(#[trigger] events[i]).schedules(id),
    ensures
        v.after_all(events).silent(id),
    decreases events.len(),
{
    if events.len() > 0 {
        let front = events.drop_last();
        assert forall|i: int| 0 <= i < front.len() implies !(#[trigger] front[i]).schedules(id) by {
            assert(!events[i].schedules(id));
        }
        silent_after_all(v, id, front);
        assert(!events[events.len() - 1].schedules(id));
        silence_is_kept(v.after_all(front), events.last(), id);
    }
}

/// A number that is scheduled again runs out as if it had never been cleared.
pub proof fn rescheduled_timer_fires(v: LoopView, id: CallbackId, ms: u64)
    ensures
        ({
            let again = v.after_message(SchedulerMessage::ClearTimer(id)).after_message(
                SchedulerMessage::ScheduleTimeout(id, ms),
            );
            timer_actions(again, Timer { id, is_interval: false, interval_ms: ms }) == seq![
                LoopAction::Send(CallbackMessage::ExecuteTimeout(id)),
            ]
        }),
{
}

/// A timeout reaches the script once; an interval goes on running and reaches it each time.
pub proof fn timers_fire(v: LoopView, t: Timer)
    requires
        v.timers.contains(t),
        !v.cancelled.contains(t.id),
    ensures
        t.is_interval ==> v.after_timer(t) == v && timer_actions(v, t)[0] == LoopAction::Send(
            CallbackMessage::ExecuteInterval(t.id),
        ),
        !t.is_interval ==> v.after_timer(t).timers == v.timers.remove(t) && timer_actions(v, t)
            == seq![LoopAction::Send(CallbackMessage::ExecuteTimeout(t.id))],
{
}

/// After a shutdown the loop ends with its last timer, whether that reaches the script or was
/// cleared; an interval that was not cleared keeps it going.
pub proof fn last_timer_ends_the_loop(v: LoopView, t: Timer)
    requires
        v.shutdown,
        v.timers == Multiset::singleton(t),
    ensures
        v.after_timer(t).over() <==> !t.is_interval || v.cancelled.contains(t.id),
{
    assert(v.timers.remove(t) =~= Multiset::empty());
    assert(v.timers.len() == 1);
}

/// Being asked to end is never forgotten.
pub proof fn shutdown_is_final(v: LoopView, msg: SchedulerMessage, t: Timer)
    requires
        v.shutdown,
    ensures
        v.after_message(msg).shutdown,
        v.after_timer(t).shutdown,
{
}

/// The body of a response is on its way in its new stream from the start: of an empty one the end,
/// of a complete one the bytes and the end behind them, where a stream holds more than one chunk;
/// where it holds one, the bytes, and the end waits. Of a body that arrives in chunks nothing is
/// there yet. The stream is open, carries its address, and has the next number.
pub proof fn response_body_is_on_its_way(
    s: StreamsView,
    url: Seq<char>,
    b: Bytes,
    rx: Receiver<Result<Bytes, String>>,
)
    requires
        s.wf(),
        0 < s.high_water_mark,
        s.next_id < u64::MAX,
        s.next_channel < u64::MAX,
    ensures
        with_body(s, url, ResponseBody::Empty).pending(s.next_id) == seq![StreamChunk::Done],
        with_body(s, url, ResponseBody::Bytes(b)).pending(s.next_id) == (if s.high_water_mark == 1 {
            seq![StreamChunk::Data(b)]
        } else {
            seq![StreamChunk::Data(b), StreamChunk::Done]
        }),
        with_body(s, url, ResponseBody::Stream(rx)).pending(s.next_id) == Seq::<
            StreamChunk,
        >::empty(),
        forall|body: ResponseBody|
            #![trigger with_body(s, url, body)]
            {
                let t = with_body(s, url, body);
                &&& t.open(s.next_id)
                &&& t.senders == s.senders.insert(s.next_id, s.next_channel)
                &&& t.receivers == s.receivers.insert(s.next_id, s.next_channel)
                &&& t.metadata == s.metadata.insert(s.next_id, url)
                &&& t.next_id == s.next_id + 1
                &&& t.room(s.next_id) == s.high_water_mark
            },
{
    let k = s.next_channel;
    let c = s.create(url);
    assert(c.channels[k].queue =~= seq![]);
    assert(seq![].push(StreamChunk::Done) =~= seq![StreamChunk::Done]);
    assert(seq![].push(StreamChunk::Data(b)) =~= seq![StreamChunk::Data(b)]);
    assert(seq![StreamChunk::Data(b)].push(StreamChunk::Done) =~= seq![
        StreamChunk::Data(b),
        StreamChunk::Done,
    ]);
    assert forall|body: ResponseBody| #![trigger with_body(s, url, body)] {
        let t = with_body(s, url, body);
        &&& t.open(s.next_id)
        &&& t.senders == s.senders.insert(s.next_id, s.next_channel)
        &&& t.receivers == s.receivers.insert(s.next_id, s.next_channel)
        &&& t.metadata == s.metadata.insert(s.next_id, url)
        &&& t.next_id == s.next_id + 1
        &&& t.room(s.next_id) == s.high_water_mark
    } by {
        match body {
            ResponseBody::Bytes(x) => {
                let w = c.write(s.next_id, StreamChunk::Data(x)).0;
                assert(w.channels[k].reader);
            },
            _ => {},
        }
    }
}

/// Whoever reads the stream of a response gets the whole body and then its end: of an empty one
/// the end at once, of a complete one its bytes and then the end. Where the end had to wait for
/// room, it goes through once the bytes were read, and is read next.
pub proof fn response_body_is_read(s: StreamsView, url: Seq<char>, b: Bytes)
    requires
        s.wf(),
        0 < s.high_water_mark,
        s.next_id < u64::MAX,
        s.next_channel < u64::MAX,
    ensures
        ({
            let id = s.next_id;
            let k = s.next_channel;
            let empty = with_body(s, url, ResponseBody::Empty);
            let full = with_body(s, url, ResponseBody::Bytes(b));
            &&& empty.read(id).1 == ReadView::Chunk(StreamChunk::Done)
            &&& full.read(id).1 == ReadView::Chunk(StreamChunk::Data(b))
            &&& s.high_water_mark > 1 ==> full.read(id).0.read(id).1 == ReadView::Chunk(
                StreamChunk::Done,
            )
            &&& s.high_water_mark == 1 ==> {
                let waits = with_waiting(full, k);
                let (after, how) = waits.read(id).0.rewrite(id, k, StreamChunk::Done);
                &&& waits.read(id).1 == ReadView::Chunk(StreamChunk::Data(b))
                &&& how is Sent
                &&& after.read(id).1 == ReadView::Chunk(StreamChunk::Done)
            }
        }),
{
    let id = s.next_id;
    let k = s.next_channel;
    let full = with_body(s, url, ResponseBody::Bytes(b));
    let c = s.create(url);
    assert(c.channels[k].queue =~= seq![]);
    let w = c.write(id, StreamChunk::Data(b)).0;
    assert(w.channels[k].queue[0] == StreamChunk::Data(b) && w.channels[k].queue.len() == 1);
    let waits = with_waiting(full, k);
    let read = full.read(id).0;
    assert(lookup(full.take(id).receivers, id) is None);
    assert(read.receivers.contains_key(id) && read.receivers[id] == k);
    let again = waits.read(id).0;
    assert(lookup(waits.take(id).receivers, id) is None);
    assert(again.receivers.contains_key(id) && again.receivers[id] == k);
    if s.high_water_mark == 1 {
        assert(again.channels[k].queue.len() == 0);
        assert(again.channels[k].writers == 2);
    } else {
        assert(full.channels[k].queue[1] == StreamChunk::Done);
        assert(read.channels[k].queue[0] == StreamChunk::Done);
    }
}

/// The streams that are there do not notice that a response opens another.
pub proof fn response_spares_other_streams(
    s: StreamsView,
    url: Seq<char>,
    body: ResponseBody,
    other: u64,
)
    requires
        s.wf(),
        0 < s.high_water_mark,
        s.next_id < u64::MAX,
        s.next_channel < u64::MAX,
        other != s.next_id,
        s.open(other),
    ensures
        with_body(s, url, body).open(other),
        with_body(s, url, body).pending(other) == s.pending(other),
{
    crate::stream_manager::created_stream_is_open(s, url, other);
    assert(s.senders[other] != s.next_channel);
}

/// A timer that is scheduled is started, with its number, its kind and its time, and runs from
/// then on; others that run go on, and what was cancelled stays so, its own number apart.
pub proof fn scheduled_timer_runs(v: LoopView, id: CallbackId, ms: u64, other: u64)
    ensures
        ({
            let timeout = Timer { id, is_interval: false, interval_ms: ms };
            let msg = SchedulerMessage::ScheduleTimeout(id, ms);
            let after = v.after_message(msg);
            &&& message_actions(msg) == seq![LoopAction::StartTimer(timeout)]
            &&& after.timers == v.timers.insert(timeout)
            &&& after.cancelled.contains(other) <==> v.cancelled.contains(other) && other != id
            &&& after.shutdown == v.shutdown
        }),
        ({
            let interval = Timer { id, is_interval: true, interval_ms: ms };
            let msg = SchedulerMessage::ScheduleInterval(id, ms);
            let after = v.after_message(msg);
            &&& message_actions(msg) == seq![LoopAction::StartTimer(interval)]
            &&& after.timers == v.timers.insert(interval)
            &&& after.cancelled.contains(other) <==> v.cancelled.contains(other) && other != id
            &&& after.shutdown == v.shutdown
        }),
{
}

/// Clearing a timer asks for nothing, lets all timers run on, and cancels its number besides those
/// that were cancelled before.
pub proof fn clearing_cancels_one_number(v: LoopView, id: CallbackId, other: u64)
    ensures
        ({
            let msg = SchedulerMessage::ClearTimer(id);
            let after = v.after_message(msg);
            &&& message_actions(msg).len() == 0
            &&& after.timers == v.timers
            &&& after.cancelled.contains(other) <==> v.cancelled.contains(other) || other == id
            &&& after.shutdown == v.shutdown
        }),
{
}

/// An interval that runs out reaches the script and starts over, as it was; and that is all.
pub proof fn interval_starts_over(v: LoopView, t: Timer)
    requires
        t.is_interval,
        !v.cancelled.contains(t.id),
    ensures
        timer_actions(v, t).len() == 2,
        timer_actions(v, t)[0] == LoopAction::Send(CallbackMessage::ExecuteInterval(t.id)),
        timer_actions(v, t)[1] == LoopAction::StartTimer(t),
{
}

/// A timer that runs out leaves the other timers running, and the other numbers cancelled.
pub proof fn timers_do_not_mix(v: LoopView, t: Timer, other: Timer, number: u64)
    requires
        other != t,
        number != t.id,
    ensures
        v.after_timer(t).timers.count(other) == v.timers.count(other),
        v.after_timer(t).cancelled.contains(number) == v.cancelled.contains(number),
        v.after_timer(t).shutdown == v.shutdown,
{
}

/// The loop ends exactly where it was asked to and no timer runs.
pub proof fn loop_ends_when_asked_and_idle(v: LoopView)
    ensures
        v.over() <==> v.shutdown && forall|t: Timer| !v.timers.contains(t),
{
    broadcast use vstd::multiset::lemma_multiset_empty_len;

    if forall|t: Timer| !v.timers.contains(t) {
        assert forall|t: Timer| #[trigger] v.timers.count(t) == 0 by {
            assert(!v.timers.contains(t));
        }
        assert(v.timers =~= Multiset::empty());
    }
}

/// What a script asks of its host is performed as it was asked for, and the answer goes back under
/// the number with which it was asked for, to what waits for an answer of that kind. The timers
/// are not touched.
pub proof fn operations_are_performed(
    v: LoopView,
    id: CallbackId,
    binding: String,
    request: crate::operations::HttpRequest,
    storage: crate::operations::StorageOp,
    kv: crate::operations::KvOp,
    database: crate::operations::DatabaseOp,
)
    ensures
        ({
            let msg = SchedulerMessage::FetchStreaming(id, request);
            message_actions(msg) == seq![
                LoopAction::Perform(Reply::Fetch(id), Operation::Fetch(request)),
            ] && v.after_message(msg) == v
        }),
        ({
            let msg = SchedulerMessage::BindingFetch(id, binding, request);
            message_actions(msg) == seq![
                LoopAction::Perform(Reply::Fetch(id), Operation::BindingFetch(binding, request)),
            ] && v.after_message(msg) == v
        }),
        ({
            let msg = SchedulerMessage::BindingStorage(id, binding, storage);
            message_actions(msg) == seq![
                LoopAction::Perform(Reply::Storage(id), Operation::BindingStorage(binding, storage)),
            ] && v.after_message(msg) == v
        }),
        ({
            let msg = SchedulerMessage::BindingKv(id, binding, kv);
            message_actions(msg) == seq![
                LoopAction::Perform(Reply::Kv(id), Operation::BindingKv(binding, kv)),
            ] && v.after_message(msg) == v
        }),
        ({
            let msg = SchedulerMessage::BindingDatabase(id, binding, database);
            message_actions(msg) == seq![
                LoopAction::Perform(
                    Reply::Database(id),
                    Operation::BindingDatabase(binding, database),
                ),
            ] && v.after_message(msg) == v
        }),
        ({
            let msg = SchedulerMessage::BindingWorker(id, binding, request);
            message_actions(msg) == seq![
                LoopAction::Perform(Reply::Worker(id), Operation::BindingWorker(binding, request)),
            ] && v.after_message(msg) == v
        }),
{
}

/// A read goes to the stream that it is for and is answered under its number; a stream that is
/// given up is closed; what is logged is logged and answered nowhere; and a message about a web
/// socket is handed on as it is. None of them touches the timers.
pub proof fn streams_logs_and_sockets_are_served(
    v: LoopView,
    id: CallbackId,
    stream: StreamId,
    level: crate::operations::LogLevel,
    text: String,
    msg: SchedulerMessage,
)
    ensures
        message_actions(SchedulerMessage::StreamRead(id, stream)) == seq![
            LoopAction::ReadStream(id, stream),
        ],
        v.after_message(SchedulerMessage::StreamRead(id, stream)) == v,
        message_actions(SchedulerMessage::StreamCancel(stream)) == seq![
            LoopAction::CloseStream(stream),
        ],
        v.after_message(SchedulerMessage::StreamCancel(stream)) == v,
        message_actions(SchedulerMessage::Log(level, text)) == seq![
            LoopAction::Perform(Reply::Nowhere, Operation::Log(level, text)),
        ],
        v.after_message(SchedulerMessage::Log(level, text)) == v,
        msg is WebSocketConnect || msg is WebSocketAccept || msg is WebSocketSend
            || msg is WebSocketClose ==> message_actions(msg) == seq![LoopAction::WebSocket(msg)]
            && v.after_message(msg) == v,
        message_actions(SchedulerMessage::Shutdown).len() == 0,
        v.after_message(SchedulerMessage::Shutdown) == (LoopView { shutdown: true, ..v }),
{
}

/// Only a response is a success, to a request as to a call of another worker. An error is handed
/// on with its own message, and an answer of another kind has a message too.
pub proof fn only_responses_succeed(result: OperationResult)
    ensures
        fetch_failure(result) is None <==> result is Http && result->Http_0 is Ok,
        worker_failure(result) is None <==> result is Http && result->Http_0 is Ok,
        result is Http && result->Http_0 is Err ==> fetch_failure(result) == Some(
            result->Http_0->Err_0@,
        ) && worker_failure(result) == Some(result->Http_0->Err_0@),
{
}

/// Which statuses have a reason phrase, and which one each of them has: those that HTTP gives them.
pub proof fn reason_phrases_belong_to_statuses(status: u16)
    ensures
        reason_phrase(status).len() > 0 <==> status == 100 || status == 101 || 200 <= status <= 202
            || status == 204 || status == 206 || 301 <= status <= 304 || status == 307 || status
            == 308 || status == 400 || status == 401 || 403 <= status <= 405 || 408 <= status <= 410
            || status == 413 || status == 415 || status == 422 || status == 429 || 500 <= status
            <= 504,
        reason_phrase(status) == "OK"@ <==> status == 200,
        reason_phrase(status) == "Not Found"@ <==> status == 404,
        reason_phrase(status) == "Internal Server Error"@ <==> status == 500,
        status == 100 ==> reason_phrase(status) == "Continue"@,
        status == 101 ==> reason_phrase(status) == "Switching Protocols"@,
        status == 201 ==> reason_phrase(status) == "Created"@,
        status == 202 ==> reason_phrase(status) == "Accepted"@,
        status == 204 ==> reason_phrase(status) == "No Content"@,
        status == 206 ==> reason_phrase(status) == "Partial Content"@,
        status == 301 ==> reason_phrase(status) == "Moved Permanently"@,
        status == 302 ==> reason_phrase(status) == "Found"@,
        status == 303 ==> reason_phrase(status) == "See Other"@,
        status == 304 ==> reason_phrase(status) == "Not Modified"@,
        status == 307 ==> reason_phrase(status) == "Temporary Redirect"@,
        status == 308 ==> reason_phrase(status) == "Permanent Redirect"@,
        status == 400 ==> reason_phrase(status) == "Bad Request"@,
        status == 401 ==> reason_phrase(status) == "Unauthorized"@,
        status == 403 ==> reason_phrase(status) == "Forbidden"@,
        status == 405 ==> reason_phrase(status) == "Method Not Allowed"@,
        status == 408 ==> reason_phrase(status) == "Request Timeout"@,
        status == 409 ==> reason_phrase(status) == "Conflict"@,
        status == 410 ==> reason_phrase(status) == "Gone"@,
        status == 413 ==> reason_phrase(status) == "Payload Too Large"@,
        status == 415 ==> reason_phrase(status) == "Unsupported Media Type"@,
        status == 422 ==> reason_phrase(status) == "Unprocessable Entity"@,
        status == 429 ==> reason_phrase(status) == "Too Many Requests"@,
        status == 501 ==> reason_phrase(status) == "Not Implemented"@,
        status == 502 ==> reason_phrase(status) == "Bad Gateway"@,
        status == 503 ==> reason_phrase(status) == "Service Unavailable"@,
        status == 504 ==> reason_phrase(status) == "Gateway Timeout"@,
{
    reveal_strlit("Continue");
    reveal_strlit("Switching Protocols");
    reveal_strlit("OK");
    reveal_strlit("Created");
    reveal_strlit("Accepted");
    reveal_strlit("No Content");
    reveal_strlit("Partial Content");
    reveal_strlit("Moved Permanently");
    reveal_strlit("Found");
    reveal_strlit("See Other");
    reveal_strlit("Not Modified");
    reveal_strlit("Temporary Redirect");
    reveal_strlit("Permanent Redirect");
    reveal_strlit("Bad Request");
    reveal_strlit("Unauthorized");
    reveal_strlit("Forbidden");
    reveal_strlit("Not Found");
    reveal_strlit("Method Not Allowed");
    reveal_strlit("Request Timeout");
    reveal_strlit("Conflict");
    reveal_strlit("Gone");
    reveal_strlit("Payload Too Large");
    reveal_strlit("Unsupported Media Type");
    reveal_strlit("Unprocessable Entity");
    reveal_strlit("Too Many Requests");
    reveal_strlit("Internal Server Error");
    reveal_strlit("Not Implemented");
    reveal_strlit("Bad Gateway");
    reveal_strlit("Service Unavailable");
    reveal_strlit("Gateway Timeout");
    assert("OK"@.len() == 2 && "Not Found"@.len() == 9 && "Internal Server Error"@.len() == 21);
    assert("Not Found"@[0] == 'N' && "Forbidden"@[0] == 'F');
}

/// What is seen of a loop is the timers that run, in whatever order, what is cancelled, and whether
/// it was asked to end.
pub proof fn loop_shows_what_it_holds(l: EventLoop, t: Timer)
    ensures
        l@.timers == l.timers@.to_multiset(),
        l@.timers.contains(t) <==> l.timers@.contains(t),
        l@.cancelled == l.cancelled@,
        l@.shutdown == l.shutdown,
{
    l.timers@.to_multiset_ensures();
}

} // verus!
