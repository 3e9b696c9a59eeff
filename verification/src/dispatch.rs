//! The callbacks that a script waits with, and the answers that settle them.
//!
//! A callback is a function of the script, which the script engine knows by a number. It is
//! registered when the script asks for something and taken out when the answer is there.

use std::collections::HashMap;

use bytes::Bytes;
use tokio::sync::mpsc::Receiver;
use vstd::prelude::*;

use crate::callback_handlers::{
    database_fields, fetch_meta_fields, kv_fields, kv_result_text, kv_text,
    populate_database_result, populate_fetch_meta, populate_kv_result,
    populate_storage_result, populate_stream_chunk_result, storage_fields, storage_source,
    storage_streams, stream_chunk_fields, EngineValue, ObjectView, ResultObject,
};
use crate::chunk_channel::max_capacity;
use crate::operations::{
    CallbackId, CallbackMessage, DatabaseResult, KvResult, StorageResult, WebSocketIncoming,
};
use crate::stream_manager::StreamManager;

verus! {

broadcast use vstd::std_specs::hash::group_hash_axioms;

/// A function of the script, by its number.
pub type FunctionId = u64;

/// The callbacks of a script.
pub struct Tables {
    /// Called with what a request or an operation has brought.
    pub fetch: HashMap<u64, u64>,
    /// Called with why a request or an operation has failed.
    pub fetch_error: HashMap<u64, u64>,
    /// Called with a chunk that was read.
    pub stream: HashMap<u64, u64>,
    /// Called with everything that arrives on a web socket, again and again.
    pub ws_event: HashMap<u64, u64>,
    /// The number of the next callback.
    pub next_id: CallbackId,
}

/// What there is to know about the callbacks of a script.
pub struct TablesView {
    pub fetch: Map<u64, u64>,
    pub fetch_error: Map<u64, u64>,
    pub stream: Map<u64, u64>,
    pub ws_event: Map<u64, u64>,
    pub next_id: u64,
}

impl View for Tables {
    type V = TablesView;

    open spec fn view(&self) -> TablesView {
        TablesView {
            fetch: self.fetch@,
            fetch_error: self.fetch_error@,
            stream: self.stream@,
            ws_event: self.ws_event@,
            next_id: self.next_id,
        }
    }
}

/// What a function of the script is called with.
pub enum Argument {
    /// An error with this message.
    Error(String),
    /// An object.
    Object(ResultObject),
    /// A number.
    Number(u64),
    /// Something that arrived on a web socket.
    Event(WebSocketIncoming),
}

/// What a function of the script is called with.
pub enum ArgumentView {
    Error(Seq<char>),
    Object(ObjectView),
    Number(u64),
    Event(WebSocketIncoming),
}

impl View for Argument {
    type V = ArgumentView;

    open spec fn view(&self) -> ArgumentView {
        match self {
            Argument::Error(m) => ArgumentView::Error(m@),
            Argument::Object(o) => ArgumentView::Object(o@),
            Argument::Number(n) => ArgumentView::Number(*n),
            Argument::Event(e) => ArgumentView::Event(*e),
        }
    }
}

/// A call into the script.
pub enum Call {
    /// Run the timer with this number.
    Timer(CallbackId),
    /// Call a function.
    Function(FunctionId, Argument),
}

/// A call into the script.
pub enum CallView {
    Timer(u64),
    Function(u64, ArgumentView),
}

impl View for Call {
    type V = CallView;

    open spec fn view(&self) -> CallView {
        match self {
            Call::Timer(id) => CallView::Timer(*id),
            Call::Function(f, a) => CallView::Function(*f, a@),
        }
    }
}

/// What an answer leads to.
pub struct Dispatched {
    /// The call to make, where somebody waits for the answer.
    pub call: Option<Call>,
    /// Where the chunks of a streamed body come from, and the number of its stream.
    pub source: Option<(u64, Receiver<Result<Bytes, String>>)>,
}

/// The call of the function that `m` holds at `id`.
pub open spec fn call_of(m: Map<u64, u64>, id: u64, a: ArgumentView) -> Option<CallView> {
    if m.contains_key(id) {
        Some(CallView::Function(m[id], a))
    } else {
        None
    }
}

impl TablesView {
    /// Nobody waits for `id` any more, neither for success nor for failure.
    pub open spec fn settled(self, id: u64) -> TablesView {
        TablesView {
            fetch: self.fetch.remove(id),
            fetch_error: self.fetch_error.remove(id),
            ..self
        }
    }

    /// The call that reports a failure.
    pub open spec fn reject(self, id: u64, message: Seq<char>) -> Option<CallView> {
        call_of(self.fetch_error, id, ArgumentView::Error(message))
    }

    /// The call that reports success.
    pub open spec fn resolve(self, id: u64, value: ArgumentView) -> Option<CallView> {
        call_of(self.fetch, id, value)
    }

    /// The callbacks after an answer.
    pub open spec fn after(self, msg: CallbackMessage) -> TablesView {
        match msg {
            CallbackMessage::ExecuteTimeout(_) => self,
            CallbackMessage::ExecuteInterval(_) => self,
            CallbackMessage::FetchError(id, _) => self.settled(id),
            CallbackMessage::FetchStreamingSuccess(id, _, _) => self.settled(id),
            CallbackMessage::StreamChunk(id, _) => TablesView {
                stream: self.stream.remove(id),
                ..self
            },
            CallbackMessage::StorageResult(id, _) => self.settled(id),
            CallbackMessage::KvResult(id, _) => self.settled(id),
            CallbackMessage::DatabaseResult(id, _) => self.settled(id),
            CallbackMessage::WebSocketConnected(id, _) => self.settled(id),
            CallbackMessage::WebSocketConnectError(id, _) => self.settled(id),
            CallbackMessage::WebSocketEvent(_, _) => self,
        }
    }

    /// The call that an answer leads to. `parsed` is what the script engine made of
    /// [`text_to_parse`], and `stream_id` the number that a new stream gets.
    pub open spec fn call(
        self,
        msg: CallbackMessage,
        parsed: Option<EngineValue>,
        stream_id: u64,
    ) -> Option<CallView> {
        match msg {
            CallbackMessage::ExecuteTimeout(id) => Some(CallView::Timer(id)),
            CallbackMessage::ExecuteInterval(id) => Some(CallView::Timer(id)),
            CallbackMessage::FetchError(id, m) => self.reject(id, m@),
            CallbackMessage::FetchStreamingSuccess(id, meta, stream) => self.resolve(
                id,
                ArgumentView::Object(fetch_meta_fields(meta, stream)),
            ),
            CallbackMessage::StreamChunk(id, chunk) => call_of(
                self.stream,
                id,
                ArgumentView::Object(stream_chunk_fields(chunk)),
            ),
            CallbackMessage::StorageResult(id, StorageResult::Error(m)) => self.reject(id, m@),
            CallbackMessage::StorageResult(id, result) => self.resolve(
                id,
                ArgumentView::Object(storage_fields(result, stream_id)),
            ),
            CallbackMessage::KvResult(id, KvResult::Error(m)) => self.reject(id, m@),
            CallbackMessage::KvResult(id, result) => self.resolve(
                id,
                ArgumentView::Object(kv_fields(result, parsed)),
            ),
            CallbackMessage::DatabaseResult(id, DatabaseResult::Error(m)) => self.reject(id, m@),
            CallbackMessage::DatabaseResult(id, result) => self.resolve(
                id,
                ArgumentView::Object(database_fields(result, parsed)),
            ),
            CallbackMessage::WebSocketConnected(id, ws) => self.resolve(
                id,
                ArgumentView::Number(ws),
            ),
            CallbackMessage::WebSocketConnectError(id, m) => self.reject(id, m@),
            CallbackMessage::WebSocketEvent(ws, event) => call_of(
                self.ws_event,
                ws,
                ArgumentView::Event(event),
            ),
        }
    }
}

/// The JSON text that the script engine has to parse before an answer is dispatched.
pub open spec fn text_to_parse(msg: CallbackMessage) -> Option<Seq<char>> {
    match msg {
        CallbackMessage::KvResult(_, result) => kv_text(result),
        CallbackMessage::DatabaseResult(_, DatabaseResult::Rows(rows)) => Some(rows@),
        _ => None,
    }
}

/// The JSON text that the script engine has to parse before an answer is dispatched.
pub fn message_text(msg: &CallbackMessage) -> (r: Option<String>)
    ensures
        match r {
            Some(text) => text_to_parse(*msg) == Some(text@),
            None => text_to_parse(*msg) is None,
        },
{
    match msg {
        CallbackMessage::KvResult(_, result) => kv_result_text(result),
        CallbackMessage::DatabaseResult(_, DatabaseResult::Rows(rows)) => Some(rows.clone()),
        _ => None,
    }
}

/// Where the chunks of a streamed body in an answer come from.
pub open spec fn message_source(msg: CallbackMessage) -> Option<Receiver<Result<Bytes, String>>> {
    match msg {
        CallbackMessage::StorageResult(_, result) => storage_source(result),
        _ => None,
    }
}

impl Tables {
    /// No callbacks; numbers start at one.
    pub fn new() -> (r: Self)
        ensures
            r@ == (TablesView {
                fetch: Map::empty(),
                fetch_error: Map::empty(),
                stream: Map::empty(),
                ws_event: Map::empty(),
                next_id: 1,
            }),
    {
        Tables {
            fetch: HashMap::new(),
            fetch_error: HashMap::new(),
            stream: HashMap::new(),
            ws_event: HashMap::new(),
            next_id: 1,
        }
    }

    /// Settles `id` with a failure.
    pub fn reject(&mut self, id: CallbackId, message: String) -> (r: Option<Call>)
        ensures
            final(self)@ == old(self)@.settled(id),
            match r {
                Some(c) => old(self)@.reject(id, message@) == Some(c@),
                None => old(self)@.reject(id, message@) is None,
            },
    {
        let callback = self.fetch_error.remove(&id);
        let _dropped = self.fetch.remove(&id);
        assert(self.fetch@ =~= old(self).fetch@.remove(id));
        assert(self.fetch_error@ =~= old(self).fetch_error@.remove(id));
        match callback {
            Some(f) => Some(Call::Function(f, Argument::Error(message))),
            None => None,
        }
    }

    /// Settles `id` with a value.
    pub fn resolve(&mut self, id: CallbackId, value: Argument) -> (r: Option<Call>)
        ensures
            final(self)@ == old(self)@.settled(id),
            match r {
                Some(c) => old(self)@.resolve(id, value@) == Some(c@),
                None => old(self)@.resolve(id, value@) is None,
            },
    {
        let callback = self.fetch.remove(&id);
        let _dropped = self.fetch_error.remove(&id);
        assert(self.fetch@ =~= old(self).fetch@.remove(id));
        assert(self.fetch_error@ =~= old(self).fetch_error@.remove(id));
        match callback {
            Some(f) => Some(Call::Function(f, value)),
            None => None,
        }
    }

    /// Settles `id` with a failure where there is one, else with a value where there is one.
    pub fn dispatch_binding_callbacks(
        &mut self,
        id: CallbackId,
        error: Option<String>,
        value: Option<Argument>,
    ) -> (r: Option<Call>)
        ensures
            match (error, value) {
                (Some(m), _) => final(self)@ == old(self)@.settled(id) && match r {
                    Some(c) => old(self)@.reject(id, m@) == Some(c@),
                    None => old(self)@.reject(id, m@) is None,
                },
                (None, Some(v)) => final(self)@ == old(self)@.settled(id) && match r {
                    Some(c) => old(self)@.resolve(id, v@) == Some(c@),
                    None => old(self)@.resolve(id, v@) is None,
                },
                (None, None) => final(self)@ == old(self)@ && r is None,
            },
    {
        match error {
            Some(message) => self.reject(id, message),
            None => match value {
                Some(v) => self.resolve(id, v),
                None => None,
            },
        }
    }

    /// Finds the call that an answer leads to. `parsed` is what the script engine made of the
    /// text of [`message_text`].
    pub fn dispatch(
        &mut self,
        msg: CallbackMessage,
        parsed: Option<EngineValue>,
        streams: &mut StreamManager,
    ) -> (r: Dispatched)
        requires
            old(streams).wf(),
            message_source(msg) is Some ==> 0 < old(streams).high_water_mark <= max_capacity()
                && old(streams).next_id < u64::MAX && old(streams).next_channel < u64::MAX,
        ensures
            final(streams).wf(),
            final(self)@ == old(self)@.after(msg),
            match r.call {
                Some(c) => old(self)@.call(msg, parsed, old(streams).next_id) == Some(c@),
                None => old(self)@.call(msg, parsed, old(streams).next_id) is None,
            },
            final(streams)@ == (match msg {
                CallbackMessage::StorageResult(_, result) => storage_streams(
                    result,
                    old(streams)@,
                ),
                _ => old(streams)@,
            }),
            r.source == (match message_source(msg) {
                Some(rx) => Some((old(streams).next_id, rx)),
                None => None,
            }),
    {
        let stream_id: u64 = streams.next_id;
        let mut source: Option<(u64, Receiver<Result<Bytes, String>>)> = None;
        let call = match msg {
            CallbackMessage::ExecuteTimeout(id) => Some(Call::Timer(id)),
            CallbackMessage::ExecuteInterval(id) => Some(Call::Timer(id)),
            CallbackMessage::FetchError(id, message) => self.reject(id, message),
            CallbackMessage::FetchStreamingSuccess(id, meta, stream) => {
                self.resolve(id, Argument::Object(populate_fetch_meta(meta, stream)))
            },
            CallbackMessage::StreamChunk(id, chunk) => {
                let callback = self.stream.remove(&id);
                assert(self.stream@ =~= old(self).stream@.remove(id));
                match callback {
                    Some(f) => Some(
                        Call::Function(f, Argument::Object(populate_stream_chunk_result(chunk))),
                    ),
                    None => None,
                }
            },
            CallbackMessage::StorageResult(id, result) => match result {
                StorageResult::Error(message) => self.dispatch_binding_callbacks(
                    id,
                    Some(message),
                    None,
                ),
                result => {
                    let (object, rx) = populate_storage_result(result, streams);
                    if let Some(rx) = rx {
                        source = Some((stream_id, rx));
                    }
                    self.dispatch_binding_callbacks(id, None, Some(Argument::Object(object)))
                },
            },
            CallbackMessage::KvResult(id, result) => match result {
                KvResult::Error(message) => self.dispatch_binding_callbacks(
                    id,
                    Some(message),
                    None,
                ),
                result => {
                    let object = populate_kv_result(result, parsed);
                    self.dispatch_binding_callbacks(id, None, Some(Argument::Object(object)))
                },
            },
            CallbackMessage::DatabaseResult(id, result) => match result {
                DatabaseResult::Error(message) => self.dispatch_binding_callbacks(
                    id,
                    Some(message),
                    None,
                ),
                result => {
                    let object = populate_database_result(result, parsed);
                    self.dispatch_binding_callbacks(id, None, Some(Argument::Object(object)))
                },
            },
            CallbackMessage::WebSocketConnected(id, ws) => self.dispatch_binding_callbacks(
                id,
                None,
                Some(Argument::Number(ws)),
            ),
            CallbackMessage::WebSocketConnectError(id, message) => self.dispatch_binding_callbacks(
                id,
                Some(message),
                None,
            ),
            CallbackMessage::WebSocketEvent(ws, event) => match self.ws_event.get(&ws) {
                Some(f) => Some(Call::Function(*f, Argument::Event(event))),
                None => None,
            },
        };
        Dispatched { call, source }
    }
}

/// The callback that an answer is for, where only one answer can come.
pub open spec fn answers(msg: CallbackMessage) -> Option<u64> {
    match msg {
        CallbackMessage::FetchError(id, _) => Some(id),
        CallbackMessage::FetchStreamingSuccess(id, _, _) => Some(id),
        CallbackMessage::StorageResult(id, _) => Some(id),
        CallbackMessage::KvResult(id, _) => Some(id),
        CallbackMessage::DatabaseResult(id, _) => Some(id),
        CallbackMessage::WebSocketConnected(id, _) => Some(id),
        CallbackMessage::WebSocketConnectError(id, _) => Some(id),
        _ => None,
    }
}

/// A request settles once: after one answer, whether success or failure, no further answer for
/// it leads to a call.
pub proof fn request_settles_once(
    t: TablesView,
    first: CallbackMessage,
    second: CallbackMessage,
    id: u64,
    parsed: Option<EngineValue>,
    stream_id: u64,
)
    requires
        answers(first) == Some(id),
        answers(second) == Some(id),
    ensures
        t.after(first).call(second, parsed, stream_id) is None,
        t.after(first).after(second) == t.after(first),
{
    let a = t.after(first);
    assert(a.fetch.remove(id) =~= a.fetch);
    assert(a.fetch_error.remove(id) =~= a.fetch_error);
}

/// A chunk that was read is handed over once.
pub proof fn chunk_is_delivered_once(
    t: TablesView,
    id: u64,
    first: crate::chunk_channel::StreamChunk,
    second: crate::chunk_channel::StreamChunk,
    parsed: Option<EngineValue>,
    stream_id: u64,
)
    ensures
        t.after(CallbackMessage::StreamChunk(id, first)).call(
            CallbackMessage::StreamChunk(id, second),
            parsed,
            stream_id,
        ) is None,
{
}

/// An answer leaves everybody else waiting.
pub proof fn answer_spares_others(t: TablesView, msg: CallbackMessage, id: u64, other: u64)
    requires
        answers(msg) == Some(id),
        other != id,
    ensures
        t.fetch.contains_key(other) ==> t.after(msg).fetch.contains_key(other) && t.after(
            msg,
        ).fetch[other] == t.fetch[other],
        t.fetch_error.contains_key(other) ==> t.after(msg).fetch_error.contains_key(other)
            && t.after(msg).fetch_error[other] == t.fetch_error[other],
        t.after(msg).stream == t.stream,
        t.after(msg).ws_event == t.ws_event,
{
}

/// A web socket keeps its callback whatever arrives.
pub proof fn socket_callback_persists(t: TablesView, msg: CallbackMessage)
    ensures
        t.after(msg).ws_event == t.ws_event,
{
}

/// A timer that has run out is called by its number, be it a timeout or an interval, whatever the
/// tables hold; and nothing that waits is touched.
pub proof fn timers_are_called(
    t: TablesView,
    id: u64,
    parsed: Option<EngineValue>,
    stream_id: u64,
)
    ensures
        t.call(CallbackMessage::ExecuteTimeout(id), parsed, stream_id) == Some(CallView::Timer(id)),
        t.call(CallbackMessage::ExecuteInterval(id), parsed, stream_id) == Some(
            CallView::Timer(id),
        ),
        t.after(CallbackMessage::ExecuteTimeout(id)) == t,
        t.after(CallbackMessage::ExecuteInterval(id)) == t,
{
}

/// Whatever was asked for, success calls the function that waits for it, with what was brought:
/// the head of a response, the answer of a binding, the number of a web socket.
pub proof fn success_calls_the_waiting_function(
    t: TablesView,
    id: u64,
    meta: crate::operations::HttpResponseMeta,
    stream: u64,
    storage: StorageResult,
    kv: KvResult,
    database: DatabaseResult,
    ws: u64,
    value: ArgumentView,
    parsed: Option<EngineValue>,
    stream_id: u64,
)
    requires
        t.fetch.contains_key(id),
        !(storage is Error),
        !(kv is Error),
        !(database is Error),
    ensures
        t.call(CallbackMessage::FetchStreamingSuccess(id, meta, stream), parsed, stream_id) == Some(
            CallView::Function(
                t.fetch[id],
                ArgumentView::Object(fetch_meta_fields(meta, stream)),
            ),
        ),
        t.call(CallbackMessage::StorageResult(id, storage), parsed, stream_id) == Some(
            CallView::Function(
                t.fetch[id],
                ArgumentView::Object(storage_fields(storage, stream_id)),
            ),
        ),
        t.call(CallbackMessage::KvResult(id, kv), parsed, stream_id) == Some(
            CallView::Function(t.fetch[id], ArgumentView::Object(kv_fields(kv, parsed))),
        ),
        t.call(CallbackMessage::DatabaseResult(id, database), parsed, stream_id) == Some(
            CallView::Function(
                t.fetch[id],
                ArgumentView::Object(database_fields(database, parsed)),
            ),
        ),
        t.call(CallbackMessage::WebSocketConnected(id, ws), parsed, stream_id) == Some(
            CallView::Function(t.fetch[id], ArgumentView::Number(ws)),
        ),
        t.resolve(id, value) == Some(CallView::Function(t.fetch[id], value)),
{
}

/// Whatever was asked for, failure calls the function that waits for it, with an error that has
/// the message of the failure.
pub proof fn failure_calls_the_waiting_function(
    t: TablesView,
    id: u64,
    m: String,
    parsed: Option<EngineValue>,
    stream_id: u64,
)
    requires
        t.fetch_error.contains_key(id),
    ensures
        ({
            let call = Some(CallView::Function(t.fetch_error[id], ArgumentView::Error(m@)));
            &&& t.call(CallbackMessage::FetchError(id, m), parsed, stream_id) == call
            &&& t.call(
                CallbackMessage::StorageResult(id, StorageResult::Error(m)),
                parsed,
                stream_id,
            ) == call
            &&& t.call(CallbackMessage::KvResult(id, KvResult::Error(m)), parsed, stream_id) == call
            &&& t.call(
                CallbackMessage::DatabaseResult(id, DatabaseResult::Error(m)),
                parsed,
                stream_id,
            ) == call
            &&& t.call(CallbackMessage::WebSocketConnectError(id, m), parsed, stream_id) == call
            &&& t.reject(id, m@) == call
        }),
{
}

/// What nobody waits for calls nobody: a success without a function for it, a failure without one,
/// a chunk that nobody reads, and something on a web socket that was not accepted.
pub proof fn unawaited_answers_call_nobody(
    t: TablesView,
    msg: CallbackMessage,
    parsed: Option<EngineValue>,
    stream_id: u64,
)
    requires
        match msg {
            CallbackMessage::ExecuteTimeout(_) => false,
            CallbackMessage::ExecuteInterval(_) => false,
            CallbackMessage::FetchError(id, _) => !t.fetch_error.contains_key(id),
            CallbackMessage::FetchStreamingSuccess(id, _, _) => !t.fetch.contains_key(id),
            CallbackMessage::StreamChunk(id, _) => !t.stream.contains_key(id),
            CallbackMessage::StorageResult(id, r) => if r is Error {
                !t.fetch_error.contains_key(id)
            } else {
                !t.fetch.contains_key(id)
            },
            CallbackMessage::KvResult(id, r) => if r is Error {
                !t.fetch_error.contains_key(id)
            } else {
                !t.fetch.contains_key(id)
            },
            CallbackMessage::DatabaseResult(id, r) => if r is Error {
                !t.fetch_error.contains_key(id)
            } else {
                !t.fetch.contains_key(id)
            },
            CallbackMessage::WebSocketConnected(id, _) => !t.fetch.contains_key(id),
            CallbackMessage::WebSocketConnectError(id, _) => !t.fetch_error.contains_key(id),
            CallbackMessage::WebSocketEvent(ws, _) => !t.ws_event.contains_key(ws),
        },
    ensures
        t.call(msg, parsed, stream_id) is None,
{
}

/// A chunk goes to the function that waits for it, which is then forgotten; what arrives on a web
/// socket goes to the function of that socket, as it is, and nothing is forgotten.
pub proof fn chunks_and_events_are_delivered(
    t: TablesView,
    id: u64,
    chunk: crate::chunk_channel::StreamChunk,
    event: WebSocketIncoming,
    parsed: Option<EngineValue>,
    stream_id: u64,
)
    ensures
        t.stream.contains_key(id) ==> t.call(
            CallbackMessage::StreamChunk(id, chunk),
            parsed,
            stream_id,
        ) == Some(
            CallView::Function(t.stream[id], ArgumentView::Object(stream_chunk_fields(chunk))),
        ),
        t.after(CallbackMessage::StreamChunk(id, chunk)) == (TablesView {
            fetch: t.fetch,
            fetch_error: t.fetch_error,
            stream: t.stream.remove(id),
            ws_event: t.ws_event,
            next_id: t.next_id,
        }),
        t.ws_event.contains_key(id) ==> t.call(
            CallbackMessage::WebSocketEvent(id, event),
            parsed,
            stream_id,
        ) == Some(CallView::Function(t.ws_event[id], ArgumentView::Event(event))),
        t.after(CallbackMessage::WebSocketEvent(id, event)) == t,
{
}

/// An answer frees both functions that wait with its number, the one for success and the one for
/// failure, whichever is called, and nothing else.
pub proof fn answer_frees_both_functions(t: TablesView, msg: CallbackMessage, id: u64)
    requires
        match msg {
            CallbackMessage::FetchError(i, _) => i == id,
            CallbackMessage::FetchStreamingSuccess(i, _, _) => i == id,
            CallbackMessage::StorageResult(i, _) => i == id,
            CallbackMessage::KvResult(i, _) => i == id,
            CallbackMessage::DatabaseResult(i, _) => i == id,
            CallbackMessage::WebSocketConnected(i, _) => i == id,
            CallbackMessage::WebSocketConnectError(i, _) => i == id,
            _ => false,
        },
    ensures
        t.after(msg) == (TablesView {
            fetch: t.fetch.remove(id),
            fetch_error: t.fetch_error.remove(id),
            stream: t.stream,
            ws_event: t.ws_event,
            next_id: t.next_id,
        }),
        t.settled(id) == t.after(msg),
        answers(msg) == Some(id),
{
}

/// The engine has to parse the JSON text of a value that a key-value binding has found and the rows
/// of a database, and of no other answer anything.
pub proof fn values_and_rows_are_parsed(id: u64, v: serde_json::Value, rows: String)
    ensures
        text_to_parse(CallbackMessage::KvResult(id, KvResult::Value(Some(v)))) == Some(
            crate::operations::json_text_of(v),
        ),
        text_to_parse(CallbackMessage::DatabaseResult(id, DatabaseResult::Rows(rows))) == Some(
            rows@,
        ),
        forall|msg: CallbackMessage|
            #![trigger text_to_parse(msg)]
            text_to_parse(msg) is Some ==> (msg matches CallbackMessage::KvResult(
                _,
                KvResult::Value(Some(_)),
            )) || (msg matches CallbackMessage::DatabaseResult(_, DatabaseResult::Rows(_))),
{
}

/// Only a response of a storage binding whose body arrives in chunks brings a source of chunks,
/// and it is that of the body.
pub proof fn streamed_bodies_bring_their_source(
    id: u64,
    response: crate::task::HttpResponse,
    rx: Receiver<Result<Bytes, String>>,
    msg: CallbackMessage,
)
    ensures
        response.body == crate::task::ResponseBody::Stream(rx) ==> message_source(
            CallbackMessage::StorageResult(id, StorageResult::Response(response)),
        ) == Some(rx),
        message_source(msg) is Some ==> msg is StorageResult && msg->StorageResult_1 is Response
            && msg->StorageResult_1->Response_0.body == crate::task::ResponseBody::Stream(
            message_source(msg)->0,
        ),
{
}

/// What is seen of a call is what is called, and with what.
pub proof fn calls_show_what_is_called(
    id: u64,
    m: String,
    o: ResultObject,
    n: u64,
    e: WebSocketIncoming,
)
    ensures
        Call::Timer(id)@ == CallView::Timer(id),
        Call::Function(id, Argument::Error(m))@ == CallView::Function(id, ArgumentView::Error(m@)),
        Call::Function(id, Argument::Object(o))@ == CallView::Function(
            id,
            ArgumentView::Object(o@),
        ),
        Call::Function(id, Argument::Number(n))@ == CallView::Function(id, ArgumentView::Number(n)),
        Call::Function(id, Argument::Event(e))@ == CallView::Function(id, ArgumentView::Event(e)),
{
}

/// What is seen of the callbacks is what the tables hold.
pub proof fn tables_show_what_they_hold(t: Tables)
    ensures
        t@.fetch == t.fetch@,
        t@.fetch_error == t.fetch_error@,
        t@.stream == t.stream@,
        t@.ws_event == t.ws_event@,
        t@.next_id == t.next_id,
{
}

} // verus!
