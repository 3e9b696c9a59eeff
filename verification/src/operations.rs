//! The data that passes between a script and the operations that its host performs.

use bytes::Bytes;
use serde_json::Value;
use tokio::sync::mpsc::Receiver;
use vstd::prelude::*;

use crate::chunk_channel::StreamChunk;
use crate::fetch::HttpMethod;
use crate::task::HttpResponse;

verus! {

/// The number under which a script waits for an answer.
pub type CallbackId = u64;

/// The number of a web socket.
pub type WebSocketId = u64;

/// The JSON value type of the `serde_json` crate. Its JSON text is named by [`json_text_of`].
#[verifier::external_type_specification]
#[verifier::external_body]
pub struct ExValue(Value);

/// The JSON text of a value.
pub uninterp spec fn json_text_of(v: Value) -> Seq<char>;

/// Makes `Value::Null`, whose JSON text is `null`.
#[verifier::external_body]
pub(crate) fn json_null() -> (r: Value)
    ensures
        json_text_of(r) == "null"@,
{
    Value::Null
}

/// Calls `serde_json::to_string` on a value, which cannot fail: its text is named
/// [`json_text_of`].
#[verifier::external_body]
pub(crate) fn json_text(v: &Value) -> (r: String)
    ensures
        r@ == json_text_of(*v),
{
    serde_json::to_string(v).unwrap()
}

/// The JSON text of the value that `serde_json::from_str` reads from a text, where it reads one.
pub uninterp spec fn json_reread(s: Seq<char>) -> Option<Seq<char>>;

/// Calls `serde_json::from_str` for a value. The JSON text of what it reads is named
/// [`json_reread`].
#[verifier::external_body]
pub(crate) fn json_parse(s: &str) -> (r: Option<Value>)
    ensures
        match r {
            Some(v) => json_reread(s@) == Some(json_text_of(v)),
            None => r is None && json_reread(s@) is None,
        },
{
    serde_json::from_str(s).ok()
}

/// The body of a request.
pub enum RequestBody {
    Empty,
    Bytes(Bytes),
    Stream(Receiver<Result<Bytes, String>>),
}

/// A request that the host performs.
pub struct HttpRequest {
    pub url: String,
    pub method: HttpMethod,
    pub headers: Vec<(String, String)>,
    pub body: RequestBody,
}

/// What is known of a response before its body.
pub struct HttpResponseMeta {
    pub status: u16,
    pub status_text: String,
    pub headers: Vec<(String, String)>,
}

/// An operation on a storage binding.
pub enum StorageOp {
    Get { key: String },
    Put { key: String, body: Vec<u8> },
    Head { key: String },
    List { prefix: Option<String>, limit: Option<u32> },
    Delete { key: String },
}

/// The answer of a storage binding.
pub enum StorageResult {
    Body(Option<Vec<u8>>),
    Head { size: u64, etag: Option<String> },
    List { keys: Vec<String>, truncated: bool },
    Error(String),
    Response(HttpResponse),
}

/// An operation on a key-value binding.
pub enum KvOp {
    Get { key: String },
    Put { key: String, value: Value, expires_in: Option<u64> },
    Delete { key: String },
    List { prefix: Option<String>, limit: Option<u32> },
}

/// The answer of a key-value binding.
pub enum KvResult {
    Value(Option<Value>),
    Stored,
    Keys(Vec<String>),
    Error(String),
}

/// An operation on a database binding.
pub enum DatabaseOp {
    Query { sql: String, params: Vec<String> },
}

/// The answer of a database binding.
pub enum DatabaseResult {
    Rows(String),
    Error(String),
}

/// How important a message is.
#[derive(Debug, Clone, Copy, PartialEq, Eq, Structural)]
pub enum LogLevel {
    Error,
    Warn,
    Info,
    Debug,
    Trace,
}

/// What a script sends over a web socket.
pub enum WebSocketOutgoing {
    Text(String),
    Binary(Vec<u8>),
}

/// What arrives on a web socket.
pub enum WebSocketIncoming {
    Text(String),
    Binary(Vec<u8>),
    Close { code: u16, reason: String },
    Error(String),
}

/// What the host is asked to do.
pub enum Operation {
    /// Make a request.
    Fetch(HttpRequest),
    /// Make a request through a binding.
    BindingFetch(String, HttpRequest),
    /// Use a storage binding.
    BindingStorage(String, StorageOp),
    /// Use a key-value binding.
    BindingKv(String, KvOp),
    /// Use a database binding.
    BindingDatabase(String, DatabaseOp),
    /// Make a request of another worker.
    BindingWorker(String, HttpRequest),
    /// Write a message.
    Log(LogLevel, String),
}

/// What the host answers.
pub enum OperationResult {
    Http(Result<HttpResponse, String>),
    Ack,
    Storage(StorageResult),
    Kv(KvResult),
    Database(DatabaseResult),
}

/// What a script asks of its event loop.
pub enum SchedulerMessage {
    ScheduleTimeout(CallbackId, u64),
    ScheduleInterval(CallbackId, u64),
    ClearTimer(CallbackId),
    FetchStreaming(CallbackId, HttpRequest),
    BindingFetch(CallbackId, String, HttpRequest),
    BindingStorage(CallbackId, String, StorageOp),
    BindingKv(CallbackId, String, KvOp),
    BindingDatabase(CallbackId, String, DatabaseOp),
    BindingWorker(CallbackId, String, HttpRequest),
    StreamRead(CallbackId, u64),
    StreamCancel(u64),
    WebSocketConnect(CallbackId, String, Vec<(String, String)>),
    WebSocketAccept(WebSocketId),
    WebSocketSend(WebSocketId, WebSocketOutgoing),
    WebSocketClose(WebSocketId, u16, String),
    Log(LogLevel, String),
    Shutdown,
}

/// What the event loop tells a script.
pub enum CallbackMessage {
    ExecuteTimeout(CallbackId),
    ExecuteInterval(CallbackId),
    FetchError(CallbackId, String),
    FetchStreamingSuccess(CallbackId, HttpResponseMeta, u64),
    StreamChunk(CallbackId, StreamChunk),
    StorageResult(CallbackId, StorageResult),
    KvResult(CallbackId, KvResult),
    DatabaseResult(CallbackId, DatabaseResult),
    WebSocketConnected(CallbackId, WebSocketId),
    WebSocketConnectError(CallbackId, String),
    WebSocketEvent(WebSocketId, WebSocketIncoming),
}

} // verus!
