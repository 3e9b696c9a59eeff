//! What a script can ask of its host: requests, bindings, streams, timers, web sockets, logging.
//!
//! Every function here stands behind a native function of the script. A call with arguments
//! that make no sense is ignored: no message goes out and nothing is registered.

use vstd::prelude::*;
use vstd::utf8::*;

use bytes::Bytes;
use serde_json::Value;

use crate::chunk_channel::{bytes_from_vec, bytes_seq, max_capacity, StreamChunk};
use crate::dispatch::{FunctionId, Tables, TablesView};
use crate::fetch::{ascii_uppercase, default_method, unicode_uppercase, HttpMethod};
use crate::operations::{
    json_null, json_text_of, CallbackId, DatabaseOp, HttpRequest, KvOp, LogLevel, RequestBody,
    SchedulerMessage, StorageOp, WebSocketId, WebSocketOutgoing,
};
use crate::stream_manager::{StreamId, StreamManager};
use crate::text::{concat3, str_eq};

verus! {

broadcast use vstd::std_specs::hash::group_hash_axioms;

/// What a script says about a request.
pub struct FetchOptions {
    pub url: String,
    /// The method, where the script names one.
    pub method: Option<String>,
    pub headers: Vec<(String, String)>,
    pub body: Option<Vec<u8>>,
}

/// What a script says about an operation on a storage binding.
pub struct StorageParams {
    pub key: String,
    pub body: Option<Vec<u8>>,
    pub prefix: Option<String>,
    pub limit: Option<u32>,
}

/// What a script says about an operation on a key-value binding.
pub struct KvParams {
    pub key: String,
    pub value: Option<Value>,
    pub expires_in: Option<u64>,
    pub prefix: Option<String>,
    pub limit: Option<u32>,
}

/// What a script says about an operation on a database binding.
pub struct DatabaseParams {
    pub sql: String,
    pub params: Vec<String>,
}

/// The method that a script means: `GET` where it names none, or none that exists.
pub open spec fn method_of(method: Option<String>) -> HttpMethod {
    match method {
        Some(m) => match HttpMethod::named(unicode_uppercase(m@)) {
            Some(found) => found,
            None => HttpMethod::Get,
        },
        None => HttpMethod::Get,
    }
}

/// Whether `r` is the request that a script described.
pub open spec fn describes(o: FetchOptions, r: HttpRequest) -> bool {
    &&& r.url == o.url
    &&& r.method == method_of(o.method)
    &&& r.headers == o.headers
    &&& match o.body {
        Some(v) => r.body matches RequestBody::Bytes(b) && bytes_seq(b) == v@,
        None => r.body is Empty,
    }
}

/// The request that a script described.
pub fn parse_http_request(options: FetchOptions) -> (r: HttpRequest)
    ensures
        describes(options, r),
        options.method matches Some(m) && is_ascii_chars(m@) && HttpMethod::named(
            ascii_uppercase(m@),
        ) is Some ==> Some(r.method) == HttpMethod::named(ascii_uppercase(options.method->0@)),
{
    let method = match options.method {
        Some(name) => match HttpMethod::from_str(name.as_str()) {
            Some(m) => m,
            None => HttpMethod::Get,
        },
        None => match HttpMethod::from_uppercase(default_method().as_str()) {
            Some(m) => m,
            None => HttpMethod::Get,
        },
    };
    let body = match options.body {
        Some(v) => RequestBody::Bytes(bytes_from_vec(v)),
        None => RequestBody::Empty,
    };
    HttpRequest { url: options.url, method, headers: options.headers, body }
}

impl TablesView {
    /// One more callback waits for success.
    pub open spec fn with_callback(self, f: FunctionId) -> TablesView {
        TablesView {
            fetch: self.fetch.insert(self.next_id, f),
            next_id: (self.next_id + 1) as u64,
            ..self
        }
    }

    /// One more pair of callbacks waits, for success and for failure.
    pub open spec fn with_callbacks(self, f: FunctionId, e: FunctionId) -> TablesView {
        TablesView {
            fetch_error: self.fetch_error.insert(self.next_id, e),
            ..self.with_callback(f)
        }
    }

    /// One more callback waits for success, and one for failure where there is one.
    pub open spec fn with_optional(self, f: FunctionId, e: Option<FunctionId>) -> TablesView {
        match e {
            Some(e) => self.with_callbacks(f, e),
            None => self.with_callback(f),
        }
    }

    /// One more callback waits for a chunk.
    pub open spec fn with_reader(self, f: FunctionId) -> TablesView {
        TablesView {
            stream: self.stream.insert(self.next_id, f),
            next_id: (self.next_id + 1) as u64,
            ..self
        }
    }
}

impl Tables {
    /// Registers a callback for success and returns its number.
    pub fn register_callback(&mut self, success: FunctionId) -> (id: CallbackId)
        requires
            old(self).next_id < u64::MAX,
        ensures
            id == old(self).next_id,
            final(self)@ == old(self)@.with_callback(success),
    {
        let id: u64 = self.next_id;
        self.next_id = self.next_id + 1;
        let _old = self.fetch.insert(id, success);
        id
    }

    /// Registers callbacks for success and failure and returns their number.
    pub fn register_callbacks_with_error(
        &mut self,
        success: FunctionId,
        error: FunctionId,
    ) -> (id: CallbackId)
        requires
            old(self).next_id < u64::MAX,
        ensures
            id == old(self).next_id,
            final(self)@ == old(self)@.with_callbacks(success, error),
    {
        let id: u64 = self.register_callback(success);
        let _old = self.fetch_error.insert(id, error);
        id
    }

    /// Registers a callback for success, and one for failure where there is one.
    fn register_optional(&mut self, success: FunctionId, error: Option<FunctionId>) -> (id: CallbackId)
        requires
            old(self).next_id < u64::MAX,
        ensures
            id == old(self).next_id,
            final(self)@ == old(self)@.with_optional(success, error),
    {
        match error {
            Some(e) => self.register_callbacks_with_error(success, e),
            None => self.register_callback(success),
        }
    }

    /// A script makes a request. `options` are missing where they could not be read, `resolve`
    /// and `reject` where they are no functions.
    pub fn native_fetch_streaming(
        &mut self,
        args: usize,
        options: Option<FetchOptions>,
        resolve: Option<FunctionId>,
        reject: Option<FunctionId>,
    ) -> (r: Option<SchedulerMessage>)
        requires
            old(self).next_id < u64::MAX,
        ensures
            match (options, resolve, reject) {
                (Some(o), Some(f), Some(e)) if args >= 3 => {
                    &&& r matches Some(SchedulerMessage::FetchStreaming(id, request))
                    &&& id == old(self).next_id
                    &&& describes(o, request)
                    &&& final(self)@ == old(self)@.with_callbacks(f, e)
                },
                _ => r is None && final(self)@ == old(self)@,
            },
    {
        if args < 3 {
            return None;
        }
        match (options, resolve, reject) {
            (Some(o), Some(f), Some(e)) => {
                let request = parse_http_request(o);
                let id: u64 = self.register_callbacks_with_error(f, e);
                Some(SchedulerMessage::FetchStreaming(id, request))
            },
            _ => None,
        }
    }

    /// A script makes a request through a binding, or of another worker where `worker` is set.
    pub fn native_binding_fetch(
        &mut self,
        worker: bool,
        args: usize,
        binding: Option<String>,
        options: Option<FetchOptions>,
        success: Option<FunctionId>,
        error: Option<FunctionId>,
    ) -> (r: Option<SchedulerMessage>)
        requires
            old(self).next_id < u64::MAX,
        ensures
            match (binding, options, success, error) {
                (Some(b), Some(o), Some(f), Some(e)) if args >= 4 => {
                    &&& final(self)@ == old(self)@.with_callbacks(f, e)
                    &&& if worker {
                        &&& r matches Some(SchedulerMessage::BindingWorker(id, name, request))
                        &&& id == old(self).next_id && name == b && describes(o, request)
                    } else {
                        &&& r matches Some(SchedulerMessage::BindingFetch(id, name, request))
                        &&& id == old(self).next_id && name == b && describes(o, request)
                    }
                },
                _ => r is None && final(self)@ == old(self)@,
            },
    {
        if args < 4 {
            return None;
        }
        match (binding, options, success, error) {
            (Some(b), Some(o), Some(f), Some(e)) => {
                let request = parse_http_request(o);
                let id: u64 = self.register_callbacks_with_error(f, e);
                if worker {
                    Some(SchedulerMessage::BindingWorker(id, b, request))
                } else {
                    Some(SchedulerMessage::BindingFetch(id, b, request))
                }
            },
            _ => None,
        }
    }

    /// A script reads from a stream.
    pub fn native_stream_read(&mut self, stream_id: StreamId, resolve: FunctionId) -> (r: SchedulerMessage)
        requires
            old(self).next_id < u64::MAX,
        ensures
            r == SchedulerMessage::StreamRead(old(self).next_id, stream_id),
            final(self)@ == old(self)@.with_reader(resolve),
    {
        let id: u64 = self.next_id;
        self.next_id = self.next_id + 1;
        let _old = self.stream.insert(id, resolve);
        SchedulerMessage::StreamRead(id, stream_id)
    }
}

/// Whether `op` is the operation `name` on a storage binding with these parameters.
pub open spec fn storage_op_is(name: Seq<char>, p: StorageParams, op: StorageOp) -> bool {
    match op {
        StorageOp::Get { key } => name == "get"@ && key == p.key,
        StorageOp::Put { key, body } => name == "put"@ && key == p.key && body@ == (match p.body {
            Some(b) => b@,
            None => Seq::empty(),
        }),
        StorageOp::Head { key } => name == "head"@ && key == p.key,
        StorageOp::List { prefix, limit } => name == "list"@ && prefix == p.prefix && limit
            == p.limit,
        StorageOp::Delete { key } => name == "delete"@ && key == p.key,
    }
}

/// The names of the operations on a storage binding.
pub open spec fn is_storage_op(name: Seq<char>) -> bool {
    name == "get"@ || name == "put"@ || name == "head"@ || name == "list"@ || name == "delete"@
}

/// The operation `name` on a storage binding, where there is one.
pub fn storage_operation(name: &str, params: StorageParams) -> (r: Option<StorageOp>)
    ensures
        r is Some <==> is_storage_op(name@),
        r matches Some(op) ==> storage_op_is(name@, params, op),
{
    if str_eq(name, "get") {
        Some(StorageOp::Get { key: params.key })
    } else if str_eq(name, "put") {
        let body = match params.body {
            Some(b) => b,
            None => Vec::new(),
        };
        Some(StorageOp::Put { key: params.key, body })
    } else if str_eq(name, "head") {
        Some(StorageOp::Head { key: params.key })
    } else if str_eq(name, "list") {
        Some(StorageOp::List { prefix: params.prefix, limit: params.limit })
    } else if str_eq(name, "delete") {
        Some(StorageOp::Delete { key: params.key })
    } else {
        None
    }
}

/// Whether `op` is the operation `name` on a key-value binding with these parameters.
pub open spec fn kv_op_is(name: Seq<char>, p: KvParams, op: KvOp) -> bool {
    match op {
        KvOp::Get { key } => name == "get"@ && key == p.key,
        KvOp::Put { key, value, expires_in } => name == "put"@ && key == p.key && expires_in
            == p.expires_in && match p.value {
            Some(v) => value == v,
            None => json_text_of(value) == "null"@,
        },
        KvOp::Delete { key } => name == "delete"@ && key == p.key,
        KvOp::List { prefix, limit } => name == "list"@ && prefix == p.prefix && limit == p.limit,
    }
}

/// The names of the operations on a key-value binding.
pub open spec fn is_kv_op(name: Seq<char>) -> bool {
    name == "get"@ || name == "put"@ || name == "delete"@ || name == "list"@
}

/// The operation `name` on a key-value binding, where there is one. A value that is missing is
/// stored as `null`.
pub fn kv_operation(name: &str, params: KvParams) -> (r: Option<KvOp>)
    ensures
        r is Some <==> is_kv_op(name@),
        r matches Some(op) ==> kv_op_is(name@, params, op),
{
    if str_eq(name, "get") {
        Some(KvOp::Get { key: params.key })
    } else if str_eq(name, "put") {
        let value = match params.value {
            Some(v) => v,
            None => json_null(),
        };
        Some(KvOp::Put { key: params.key, value, expires_in: params.expires_in })
    } else if str_eq(name, "delete") {
        Some(KvOp::Delete { key: params.key })
    } else if str_eq(name, "list") {
        Some(KvOp::List { prefix: params.prefix, limit: params.limit })
    } else {
        None
    }
}

/// The operation `name` on a database binding, where there is one.
pub fn database_operation(name: &str, params: DatabaseParams) -> (r: Option<DatabaseOp>)
    ensures
        r == (if name@ == "query"@ {
            Some(DatabaseOp::Query { sql: params.sql, params: params.params })
        } else {
            None
        }),
{
    if str_eq(name, "query") {
        Some(DatabaseOp::Query { sql: params.sql, params: params.params })
    } else {
        None
    }
}

impl Tables {
    /// A script uses a storage binding. Whatever could not be read is missing; a function for
    /// failures may be missing.
    pub fn native_binding_storage(
        &mut self,
        args: usize,
        binding: Option<String>,
        operation: Option<String>,
        params: Option<StorageParams>,
        success: Option<FunctionId>,
        error: Option<FunctionId>,
    ) -> (r: Option<SchedulerMessage>)
        requires
            old(self).next_id < u64::MAX,
        ensures
            match (binding, operation, params, success) {
                (Some(b), Some(o), Some(p), Some(f)) if args >= 4 && is_storage_op(o@) => {
                    &&& r matches Some(SchedulerMessage::BindingStorage(id, name, op))
                    &&& id == old(self).next_id && name == b && storage_op_is(o@, p, op)
                    &&& final(self)@ == old(self)@.with_optional(f, error)
                },
                _ => r is None && final(self)@ == old(self)@,
            },
    {
        if args < 4 {
            return None;
        }
        match (binding, operation, params, success) {
            (Some(b), Some(o), Some(p), Some(f)) => match storage_operation(o.as_str(), p) {
                Some(op) => {
                    let id: u64 = self.register_optional(f, error);
                    Some(SchedulerMessage::BindingStorage(id, b, op))
                },
                None => None,
            },
            _ => None,
        }
    }

    /// A script uses a key-value binding. Whatever could not be read is missing; a function for
    /// failures may be missing.
    pub fn native_binding_kv(
        &mut self,
        args: usize,
        binding: Option<String>,
        operation: Option<String>,
        params: Option<KvParams>,
        success: Option<FunctionId>,
        error: Option<FunctionId>,
    ) -> (r: Option<SchedulerMessage>)
        requires
            old(self).next_id < u64::MAX,
        ensures
            match (binding, operation, params, success) {
                (Some(b), Some(o), Some(p), Some(f)) if args >= 4 && is_kv_op(o@) => {
                    &&& r matches Some(SchedulerMessage::BindingKv(id, name, op))
                    &&& id == old(self).next_id && name == b && kv_op_is(o@, p, op)
                    &&& final(self)@ == old(self)@.with_optional(f, error)
                },
                _ => r is None && final(self)@ == old(self)@,
            },
    {
        if args < 4 {
            return None;
        }
        match (binding, operation, params, success) {
            (Some(b), Some(o), Some(p), Some(f)) => match kv_operation(o.as_str(), p) {
                Some(op) => {
                    let id: u64 = self.register_optional(f, error);
                    Some(SchedulerMessage::BindingKv(id, b, op))
                },
                None => None,
            },
            _ => None,
        }
    }

    /// A script uses a database binding. Whatever could not be read is missing; a function for
    /// failures may be missing.
    pub fn native_binding_database(
        &mut self,
        args: usize,
        binding: Option<String>,
        operation: Option<String>,
        params: Option<DatabaseParams>,
        success: Option<FunctionId>,
        error: Option<FunctionId>,
    ) -> (r: Option<SchedulerMessage>)
        requires
            old(self).next_id < u64::MAX,
        ensures
            match (binding, operation, params, success) {
                (Some(b), Some(o), Some(p), Some(f)) if args >= 4 && o@ == "query"@ => {
                    &&& r == Some(
                        SchedulerMessage::BindingDatabase(
                            old(self).next_id,
                            b,
                            DatabaseOp::Query { sql: p.sql, params: p.params },
                        ),
                    )
                    &&& final(self)@ == old(self)@.with_optional(f, error)
                },
                _ => r is None && final(self)@ == old(self)@,
            },
    {
        if args < 4 {
            return None;
        }
        match (binding, operation, params, success) {
            (Some(b), Some(o), Some(p), Some(f)) => match database_operation(o.as_str(), p) {
                Some(op) => {
                    let id: u64 = self.register_optional(f, error);
                    Some(SchedulerMessage::BindingDatabase(id, b, op))
                },
                None => None,
            },
            _ => None,
        }
    }

    /// A script connects a web socket. Headers that could not be read count as none.
    pub fn native_websocket_connect(
        &mut self,
        url: Option<String>,
        headers: Option<Vec<(String, String)>>,
        resolve: Option<FunctionId>,
        reject: Option<FunctionId>,
    ) -> (r: Option<SchedulerMessage>)
        requires
            old(self).next_id < u64::MAX,
        ensures
            match (url, resolve, reject) {
                (Some(u), Some(f), Some(e)) => {
                    &&& r matches Some(SchedulerMessage::WebSocketConnect(id, to, with))
                    &&& id == old(self).next_id && to == u
                    &&& with@ == (match headers {
                        Some(h) => h@,
                        None => Seq::empty(),
                    })
                    &&& final(self)@ == old(self)@.with_callbacks(f, e)
                },
                _ => r is None && final(self)@ == old(self)@,
            },
    {
        match (url, resolve, reject) {
            (Some(u), Some(f), Some(e)) => {
                let with = match headers {
                    Some(h) => h,
                    None => Vec::new(),
                };
                let id: u64 = self.register_callbacks_with_error(f, e);
                Some(SchedulerMessage::WebSocketConnect(id, u, with))
            },
            _ => None,
        }
    }

    /// A script starts to receive from a web socket; `dispatcher` is missing where it is no
    /// function. A number that could not be read is zero.
    pub fn native_websocket_accept(
        &mut self,
        ws_id: Option<WebSocketId>,
        dispatcher: Option<FunctionId>,
    ) -> (r: Option<SchedulerMessage>)
        ensures
            match dispatcher {
                Some(f) => {
                    let id = match ws_id {
                        Some(n) => n,
                        None => 0,
                    };
                    &&& r == Some(SchedulerMessage::WebSocketAccept(id))
                    &&& final(self)@ == (TablesView {
                        ws_event: old(self)@.ws_event.insert(id, f),
                        ..old(self)@
                    })
                },
                None => r is None && final(self)@ == old(self)@,
            },
    {
        match dispatcher {
            Some(f) => {
                let id: u64 = match ws_id {
                    Some(n) => n,
                    None => 0,
                };
                let _old = self.ws_event.insert(id, f);
                Some(SchedulerMessage::WebSocketAccept(id))
            },
            None => None,
        }
    }
}

/// What a script hands over to be sent on a web socket.
pub enum SocketData {
    /// A text.
    Text(String),
    /// The bytes of a buffer or of a view of one.
    Bytes(Vec<u8>),
    /// Anything else, as the text that the script engine makes of it, where it can.
    Other(Option<String>),
}

/// A script sends on a web socket: bytes as bytes, anything else as text. A number that could
/// not be read is zero.
pub fn native_websocket_send(ws_id: Option<WebSocketId>, data: SocketData) -> (r: SchedulerMessage)
    ensures
        ({
            let id = match ws_id {
                Some(n) => n,
                None => 0,
            };
            match data {
                SocketData::Text(t) => r == SchedulerMessage::WebSocketSend(
                    id,
                    WebSocketOutgoing::Text(t),
                ),
                SocketData::Bytes(b) => r == SchedulerMessage::WebSocketSend(
                    id,
                    WebSocketOutgoing::Binary(b),
                ),
                SocketData::Other(Some(t)) => r == SchedulerMessage::WebSocketSend(
                    id,
                    WebSocketOutgoing::Text(t),
                ),
                SocketData::Other(None) => r matches SchedulerMessage::WebSocketSend(
                    to,
                    WebSocketOutgoing::Text(t),
                ) && to == id && t@ == Seq::<char>::empty(),
            }
        }),
{
    let id: u64 = match ws_id {
        Some(n) => n,
        None => 0,
    };
    match data {
        SocketData::Text(t) => SchedulerMessage::WebSocketSend(id, WebSocketOutgoing::Text(t)),
        SocketData::Bytes(b) => SchedulerMessage::WebSocketSend(id, WebSocketOutgoing::Binary(b)),
        SocketData::Other(Some(t)) => SchedulerMessage::WebSocketSend(
            id,
            WebSocketOutgoing::Text(t),
        ),
        SocketData::Other(None) => SchedulerMessage::WebSocketSend(
            id,
            WebSocketOutgoing::Text(String::new()),
        ),
    }
}

/// The code with which a web socket is closed where the script gives none.
pub const NORMAL_CLOSURE: u16 = 1000;

/// A script closes a web socket. A number that could not be read is zero, a code that could not
/// is [`NORMAL_CLOSURE`], a reason that could not is empty.
pub fn native_websocket_close(
    ws_id: Option<WebSocketId>,
    code: Option<u16>,
    reason: Option<String>,
) -> (r: SchedulerMessage)
    ensures
        r matches SchedulerMessage::WebSocketClose(id, c, why) && id == (match ws_id {
            Some(n) => n,
            None => 0,
        }) && c == (match code {
            Some(n) => n,
            None => NORMAL_CLOSURE,
        }) && why@ == (match reason {
            Some(w) => w@,
            None => Seq::empty(),
        }),
{
    let id: u64 = match ws_id {
        Some(n) => n,
        None => 0,
    };
    let c: u16 = match code {
        Some(n) => n,
        None => NORMAL_CLOSURE,
    };
    let why = match reason {
        Some(w) => w,
        None => String::new(),
    };
    SchedulerMessage::WebSocketClose(id, c, why)
}

/// A script sets a timeout.
pub fn native_schedule_timeout(id: CallbackId, delay: u64) -> (r: SchedulerMessage)
    ensures
        r == SchedulerMessage::ScheduleTimeout(id, delay),
{
    SchedulerMessage::ScheduleTimeout(id, delay)
}

/// A script sets an interval.
pub fn native_schedule_interval(id: CallbackId, interval: u64) -> (r: SchedulerMessage)
    ensures
        r == SchedulerMessage::ScheduleInterval(id, interval),
{
    SchedulerMessage::ScheduleInterval(id, interval)
}

/// A script clears a timer.
pub fn native_clear_timer(id: CallbackId) -> (r: SchedulerMessage)
    ensures
        r == SchedulerMessage::ClearTimer(id),
{
    SchedulerMessage::ClearTimer(id)
}

/// A script gives up a stream.
pub fn native_stream_cancel(stream_id: StreamId) -> (r: SchedulerMessage)
    ensures
        r == SchedulerMessage::StreamCancel(stream_id),
{
    SchedulerMessage::StreamCancel(stream_id)
}

/// The level that a script means by a number.
pub open spec fn level_of(level: i32) -> LogLevel {
    if level == 0 {
        LogLevel::Error
    } else if level == 1 {
        LogLevel::Warn
    } else if level == 3 {
        LogLevel::Debug
    } else if level == 4 {
        LogLevel::Trace
    } else {
        LogLevel::Info
    }
}

/// The level that a script means by a number; what it does not know counts as `Info`.
pub fn console_level(level: i32) -> (r: LogLevel)
    ensures
        r == level_of(level),
        r == (if level == 0 {
            LogLevel::Error
        } else if level == 1 {
            LogLevel::Warn
        } else if level == 3 {
            LogLevel::Debug
        } else if level == 4 {
            LogLevel::Trace
        } else {
            LogLevel::Info
        }),
{
    match level {
        0 => LogLevel::Error,
        1 => LogLevel::Warn,
        2 => LogLevel::Info,
        3 => LogLevel::Debug,
        4 => LogLevel::Trace,
        _ => LogLevel::Info,
    }
}

/// What a script is told that it runs on: the product with its version, and the engine.
pub fn user_agent(version: &str) -> (r: String)
    ensures
        r@ == "OpenWorkers/"@ + version@ + " (v8)"@,
{
    concat3("OpenWorkers/", version, " (v8)")
}

/// The streams through which a script sends its response.
pub struct ResponseStreamState {
    pub manager: StreamManager,
}

impl ResponseStreamState {
    /// Creates a stream for the response and returns its number.
    pub fn response_stream_create(&mut self) -> (id: StreamId)
        requires
            old(self).manager.wf(),
            0 < old(self).manager.high_water_mark <= max_capacity(),
            old(self).manager.next_id < u64::MAX,
            old(self).manager.next_channel < u64::MAX,
        ensures
            final(self).manager.wf(),
            id == old(self).manager.next_id,
            final(self).manager@ == old(self).manager@.create("response"@),
    {
        self.manager.create_stream("response".to_string())
    }

    /// Writes to the stream; returns whether there was room and somebody to read it.
    pub fn response_stream_write(&mut self, stream_id: StreamId, chunk: Vec<u8>) -> (r: bool)
        requires
            old(self).manager.wf(),
        ensures
            final(self).manager.wf(),
            exists|b: Bytes|
                {
                    &&& #[trigger] bytes_seq(b) == chunk@
                    &&& final(self).manager@ == old(self).manager@.write(
                        stream_id,
                        StreamChunk::Data(b),
                    ).0
                    &&& r == (old(self).manager@.write(stream_id, StreamChunk::Data(b)).1 is Sent)
                },
    {
        let b = bytes_from_vec(chunk);
        assert(bytes_seq(b) == chunk@);
        self.manager.try_write_chunk(stream_id, StreamChunk::Data(b)).is_ok()
    }

    /// Ends the stream, where there is room for its end.
    pub fn response_stream_end(&mut self, stream_id: StreamId)
        requires
            old(self).manager.wf(),
        ensures
            final(self).manager.wf(),
            final(self).manager@ == old(self).manager@.write(stream_id, StreamChunk::Done).0,
    {
        let _result = self.manager.try_write_chunk(stream_id, StreamChunk::Done);
    }

    /// Whether the stream takes no more chunks.
    pub fn response_stream_is_closed(&self, stream_id: StreamId) -> (r: bool)
        ensures
            r == !self.manager@.senders.contains_key(stream_id),
    {
        !self.manager.has_sender(stream_id)
    }
}

/// When a worker started, in microseconds on a clock that never goes back.
pub struct PerformanceState {
    pub start: u128,
}

impl PerformanceState {
    /// The time since the worker started, in microseconds, in steps of a hundred. Finer steps
    /// would let a script measure what it must not see.
    pub fn performance_now(&self, now: u128) -> (micros: u128)
        ensures
            micros % 100 == 0,
            now >= self.start ==> micros <= now - self.start < micros + 100,
            now < self.start ==> micros == 0,
    {
        let elapsed: u128 = if now >= self.start {
            now - self.start
        } else {
            0
        };
        elapsed / 100 * 100
    }
}

/// A number that was never handed out before belongs to nobody, so that a new callback
/// displaces none.
pub proof fn registering_displaces_nobody(t: TablesView, f: FunctionId, other: u64)
    requires
        t.next_id < u64::MAX,
        forall|id: u64| #[trigger] t.fetch.contains_key(id) ==> id < t.next_id,
    ensures
        t.fetch.contains_key(other) ==> t.with_callback(f).fetch.contains_key(other)
            && t.with_callback(f).fetch[other] == t.fetch[other],
        forall|id: u64| #[trigger]
            t.with_callback(f).fetch.contains_key(id) ==> id < t.with_callback(f).next_id,
{
}

/// A script that names a method, in whatever case, means that method; one that names none, or
/// none that exists, means `GET`.
pub proof fn method_is_the_one_named(name: String, m: HttpMethod)
    ensures
        unicode_uppercase(name@) == m.name() ==> method_of(Some(name)) == m,
        (forall|other: HttpMethod| unicode_uppercase(name@) != #[trigger] other.name())
            ==> method_of(Some(name)) == HttpMethod::Get,
        method_of(None) == HttpMethod::Get,
{
    crate::fetch::methods_have_their_names(unicode_uppercase(name@));
    crate::fetch::names_lead_to_methods(m);
    if forall|other: HttpMethod| unicode_uppercase(name@) != #[trigger] other.name() {
        if HttpMethod::named(unicode_uppercase(name@)) is Some {
            let found = HttpMethod::named(unicode_uppercase(name@))->0;
            assert(unicode_uppercase(name@) == found.name());
        }
    }
}

/// A request says what the script said: its address, its headers, its method, and the bytes of its
/// body, or none. So two requests that one script described are the same but for where their bytes
/// are kept.
pub proof fn requests_say_what_was_said(o: FetchOptions, r: HttpRequest, other: HttpRequest)
    requires
        describes(o, r),
        describes(o, other),
    ensures
        r.url == o.url && other.url == o.url,
        r.headers == o.headers && other.headers == o.headers,
        r.method == method_of(o.method) && other.method == r.method,
        o.body is None ==> r.body is Empty && other.body is Empty,
        o.body is Some ==> r.body is Bytes && bytes_seq(r.body->Bytes_0) == o.body->0@
            && other.body is Bytes && bytes_seq(other.body->Bytes_0) == o.body->0@,
{
}

/// Whoever asks for something is called with the answer: a success goes to the function that was
/// registered for success, a failure to the one for failures, and each under the number that the
/// request was given. The next request gets the next number.
pub proof fn registered_functions_are_called(
    t: TablesView,
    f: FunctionId,
    e: FunctionId,
    m: String,
    ws: u64,
    parsed: Option<crate::callback_handlers::EngineValue>,
    stream_id: u64,
)
    requires
        t.next_id < u64::MAX,
    ensures
        ({
            let id = t.next_id;
            let success = crate::operations::CallbackMessage::WebSocketConnected(id, ws);
            let failure = crate::operations::CallbackMessage::FetchError(id, m);
            let both = t.with_callbacks(f, e);
            let one = t.with_callback(f);
            let called = Some(
                crate::dispatch::CallView::Function(f, crate::dispatch::ArgumentView::Number(ws)),
            );
            &&& both.call(success, parsed, stream_id) == called
            &&& both.call(failure, parsed, stream_id) == Some(
                crate::dispatch::CallView::Function(e, crate::dispatch::ArgumentView::Error(m@)),
            )
            &&& one.call(success, parsed, stream_id) == called
            &&& !t.fetch_error.contains_key(id) ==> one.call(failure, parsed, stream_id) is None
            &&& both == (TablesView {
                fetch: t.fetch.insert(id, f),
                fetch_error: t.fetch_error.insert(id, e),
                stream: t.stream,
                ws_event: t.ws_event,
                next_id: both.next_id,
            })
            &&& one == (TablesView {
                fetch: t.fetch.insert(id, f),
                fetch_error: t.fetch_error,
                stream: t.stream,
                ws_event: t.ws_event,
                next_id: one.next_id,
            })
            &&& both.next_id == id + 1 && one.next_id == id + 1
            &&& t.with_optional(f, Some(e)) == both
            &&& t.with_optional(f, None) == one
        }),
{
}

/// Whoever reads from a stream is called with the chunk, under the number that the read was given.
pub proof fn registered_reader_is_called(
    t: TablesView,
    f: FunctionId,
    chunk: StreamChunk,
    parsed: Option<crate::callback_handlers::EngineValue>,
    stream_id: u64,
)
    requires
        t.next_id < u64::MAX,
    ensures
        ({
            let after = t.with_reader(f);
            &&& after.call(
                crate::operations::CallbackMessage::StreamChunk(t.next_id, chunk),
                parsed,
                stream_id,
            ) == Some(
                crate::dispatch::CallView::Function(
                    f,
                    crate::dispatch::ArgumentView::Object(
                        crate::callback_handlers::stream_chunk_fields(chunk),
                    ),
                ),
            )
            &&& after.next_id == t.next_id + 1
            &&& after.stream == t.stream.insert(t.next_id, f)
            &&& after == (TablesView { stream: after.stream, next_id: after.next_id, ..t })
        }),
{
}

/// No two operations on a binding have one name.
proof fn operation_names_differ()
    ensures
        "get"@ != "put"@,
        "get"@ != "head"@,
        "get"@ != "list"@,
        "get"@ != "delete"@,
        "put"@ != "head"@,
        "put"@ != "list"@,
        "put"@ != "delete"@,
        "head"@ != "list"@,
        "head"@ != "delete"@,
        "list"@ != "delete"@,
{
    reveal_strlit("get");
    reveal_strlit("put");
    reveal_strlit("head");
    reveal_strlit("list");
    reveal_strlit("delete");
    assert("get"@.len() == 3 && "put"@.len() == 3 && "head"@.len() == 4 && "list"@.len() == 4);
    assert("get"@[0] == 'g' && "put"@[0] == 'p' && "head"@[0] == 'h' && "list"@[0] == 'l');
    assert("delete"@.len() == 6);
}

/// The name of an operation on a storage binding decides what is done, and the parameters with
/// what: an object is got, stored with the bytes that were given or none, looked at or deleted by
/// its key; keys are listed by a prefix and up to a limit. There are no other names.
pub proof fn storage_operations_do_what_they_are_called(
    name: Seq<char>,
    p: StorageParams,
    op: StorageOp,
)
    requires
        storage_op_is(name, p, op),
    ensures
        is_storage_op(name),
        name == "get"@ || name == "put"@ || name == "head"@ || name == "list"@ || name
            == "delete"@,
        name == "get"@ ==> op == (StorageOp::Get { key: p.key }),
        name == "put"@ ==> op is Put && op->Put_key == p.key && (p.body is Some ==> op->body@
            == p.body->0@) && (p.body is None ==> op->body@ == Seq::<u8>::empty()),
        name == "head"@ ==> op == (StorageOp::Head { key: p.key }),
        name == "list"@ ==> op == (StorageOp::List { prefix: p.prefix, limit: p.limit }),
        name == "delete"@ ==> op == (StorageOp::Delete { key: p.key }),
{
    operation_names_differ();
}

/// The name of an operation on a key-value binding decides what is done, and the parameters with
/// what: a value is got or deleted by its key, or stored under it, `null` where none was given,
/// for as long as was asked for; keys are listed by a prefix and up to a limit. There are no other
/// names.
pub proof fn kv_operations_do_what_they_are_called(name: Seq<char>, p: KvParams, op: KvOp)
    requires
        kv_op_is(name, p, op),
    ensures
        is_kv_op(name),
        name == "get"@ || name == "put"@ || name == "list"@ || name == "delete"@,
        name == "get"@ ==> op == (KvOp::Get { key: p.key }),
        name == "put"@ ==> op is Put && op->Put_key == p.key && op->expires_in == p.expires_in && (
        p.value is Some ==> op->value == p.value->0) && (p.value is None ==> json_text_of(op->value)
            == "null"@),
        name == "list"@ ==> op == (KvOp::List { prefix: p.prefix, limit: p.limit }),
        name == "delete"@ ==> op == (KvOp::Delete { key: p.key }),
{
    operation_names_differ();
}

/// Every operation on a storage binding and on a key-value binding has its name among those that
/// are known, and no other name is.
pub proof fn operations_are_known_by_their_names(name: Seq<char>)
    ensures
        is_storage_op(name) <==> name == "get"@ || name == "put"@ || name == "head"@ || name
            == "list"@ || name == "delete"@,
        is_kv_op(name) <==> name == "get"@ || name == "put"@ || name == "delete"@ || name
            == "list"@,
{
}

/// Zero stands for the most important level and each number up to four for the next less important
/// one; any other number stands for the one in the middle. No other level has two numbers.
pub proof fn levels_fall_with_their_numbers(level: i32)
    ensures
        level_of(level) == LogLevel::Error <==> level == 0,
        level_of(level) == LogLevel::Warn <==> level == 1,
        level_of(level) == LogLevel::Debug <==> level == 3,
        level_of(level) == LogLevel::Trace <==> level == 4,
        level_of(level) == LogLevel::Info <==> level == 2 || level < 0 || level > 4,
{
}

} // verus!
