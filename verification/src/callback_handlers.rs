//! What a script is handed when an operation has come to its end.
//!
//! The objects are built here as lists of fields; the script engine turns them into its own.

use bytes::Bytes;
use tokio::sync::mpsc::Receiver;
use vstd::prelude::*;

use crate::chunk_channel::{bytes_seq, max_capacity, StreamChunk};
use crate::operations::{
    json_text, json_text_of, DatabaseResult, HttpResponseMeta, KvResult, StorageResult,
};
use crate::stream_manager::{StreamId, StreamManager, StreamsView};
use crate::task::ResponseBody;

verus! {

/// A value that the script engine has made, by its number.
pub type EngineValue = u64;

/// The value of a field.
pub enum FieldValue {
    Null,
    Bool(bool),
    Number(u64),
    Text(String),
    /// Bytes, which a script sees as a `Uint8Array`.
    Buffer(Bytes),
    /// Bytes, which a script sees as a `Uint8Array`.
    Bytes(Vec<u8>),
    /// A list of texts.
    TextList(Vec<String>),
    /// A list of pairs of texts; the same name may occur more than once.
    PairList(Vec<(String, String)>),
    /// An object whose fields are set one after the other.
    Record(Vec<(String, String)>),
    /// A value that the script engine has parsed.
    Parsed(EngineValue),
}

/// What the value of a field is.
pub enum FieldView {
    Null,
    Bool(bool),
    Number(u64),
    Text(Seq<char>),
    Bytes(Seq<u8>),
    TextList(Seq<Seq<char>>),
    PairList(Seq<(Seq<char>, Seq<char>)>),
    Record(Seq<(Seq<char>, Seq<char>)>),
    Parsed(EngineValue),
}

/// The texts of a list.
pub open spec fn texts(v: Seq<String>) -> Seq<Seq<char>> {
    v.map_values(|s: String| s@)
}

/// The pairs of a list.
pub open spec fn pairs(v: Seq<(String, String)>) -> Seq<(Seq<char>, Seq<char>)> {
    v.map_values(|p: (String, String)| (p.0@, p.1@))
}

impl View for FieldValue {
    type V = FieldView;

    open spec fn view(&self) -> FieldView {
        match self {
            FieldValue::Null => FieldView::Null,
            FieldValue::Bool(b) => FieldView::Bool(*b),
            FieldValue::Number(n) => FieldView::Number(*n),
            FieldValue::Text(s) => FieldView::Text(s@),
            FieldValue::Buffer(b) => FieldView::Bytes(bytes_seq(*b)),
            FieldValue::Bytes(v) => FieldView::Bytes(v@),
            FieldValue::TextList(v) => FieldView::TextList(texts(v@)),
            FieldValue::PairList(v) => FieldView::PairList(pairs(v@)),
            FieldValue::Record(v) => FieldView::Record(pairs(v@)),
            FieldValue::Parsed(n) => FieldView::Parsed(*n),
        }
    }
}

/// A named field.
pub struct Field {
    pub name: &'static str,
    pub value: FieldValue,
}

impl View for Field {
    type V = (Seq<char>, FieldView);

    open spec fn view(&self) -> (Seq<char>, FieldView) {
        (self.name@, self.value@)
    }
}

/// An object for a script: its fields, in the order in which they are set.
pub struct ResultObject {
    pub fields: Vec<Field>,
}

/// What the fields of an object are.
pub type ObjectView = Seq<(Seq<char>, FieldView)>;

impl View for ResultObject {
    type V = Seq<(Seq<char>, FieldView)>;

    open spec fn view(&self) -> Seq<(Seq<char>, FieldView)> {
        self.fields@.map_values(|f: Field| f@)
    }
}

impl ResultObject {
    /// An object without fields.
    pub fn new() -> (r: Self)
        ensures
            r@ == Seq::<(Seq<char>, FieldView)>::empty(),
    {
        let r = ResultObject { fields: Vec::new() };
        assert(r@ =~= Seq::empty());
        r
    }

    /// Sets one more field.
    pub fn set(&mut self, name: &'static str, value: FieldValue)
        ensures
            final(self)@ == old(self)@.push((name@, value@)),
    {
        self.fields.push(Field { name, value });
        assert(self@ =~= old(self)@.push((name@, value@)));
    }
}

/// The fields `status`, `statusText`, `headers` and `streamId`.
pub open spec fn fetch_meta_fields(meta: HttpResponseMeta, stream_id: StreamId) -> ObjectView {
    seq![
        ("status"@, FieldView::Number(meta.status as u64)),
        ("statusText"@, FieldView::Text(meta.status_text@)),
        ("headers"@, FieldView::PairList(pairs(meta.headers@))),
        ("streamId"@, FieldView::Number(stream_id)),
    ]
}

/// What a script is handed when a response has arrived.
pub fn populate_fetch_meta(meta: HttpResponseMeta, stream_id: StreamId) -> (r: ResultObject)
    ensures
        r@ == fetch_meta_fields(meta, stream_id),
{
    let mut obj = ResultObject::new();
    obj.set("status", FieldValue::Number(meta.status as u64));
    obj.set("statusText", FieldValue::Text(meta.status_text));
    obj.set("headers", FieldValue::PairList(meta.headers));
    obj.set("streamId", FieldValue::Number(stream_id));
    assert(obj@ =~= fetch_meta_fields(meta, stream_id));
    obj
}

/// The field `done`: false for data, which has a `value`, and true at the end and for a failure,
/// which has an `error`.
pub open spec fn stream_chunk_fields(chunk: StreamChunk) -> ObjectView {
    match chunk {
        StreamChunk::Data(b) => seq![
            ("done"@, FieldView::Bool(false)),
            ("value"@, FieldView::Bytes(bytes_seq(b))),
        ],
        StreamChunk::Done => seq![("done"@, FieldView::Bool(true))],
        StreamChunk::Error(e) => seq![
            ("done"@, FieldView::Bool(true)),
            ("error"@, FieldView::Text(e@)),
        ],
    }
}

/// What a script is handed when it has read a chunk.
pub fn populate_stream_chunk_result(chunk: StreamChunk) -> (r: ResultObject)
    ensures
        r@ == stream_chunk_fields(chunk),
{
    let mut obj = ResultObject::new();
    match chunk {
        StreamChunk::Data(b) => {
            obj.set("done", FieldValue::Bool(false));
            obj.set("value", FieldValue::Buffer(b));
        },
        StreamChunk::Done => {
            obj.set("done", FieldValue::Bool(true));
        },
        StreamChunk::Error(e) => {
            obj.set("done", FieldValue::Bool(true));
            obj.set("error", FieldValue::Text(e));
        },
    }
    assert(obj@ =~= stream_chunk_fields(chunk));
    obj
}

/// A script always learns whether there is more to read: `done` is the first field of every chunk,
/// and true exactly where no data follows any more. A `value` comes with data only, an `error`
/// with a failure only.
pub proof fn chunks_say_done_first(chunk: StreamChunk)
    ensures
        stream_chunk_fields(chunk)[0] == ("done"@, FieldView::Bool(!(chunk is Data))),
        stream_chunk_fields(chunk).len() == (if chunk is Done {
            1nat
        } else {
            2
        }),
        chunk matches StreamChunk::Data(b) ==> stream_chunk_fields(chunk)[1] == (
            "value"@,
            FieldView::Bytes(bytes_seq(b)),
        ),
        chunk matches StreamChunk::Error(e) ==> stream_chunk_fields(chunk)[1] == (
            "error"@,
            FieldView::Text(e@),
        ),
{
}

/// The fields `success` and `error` of a failure.
pub open spec fn failure_fields(message: Seq<char>) -> ObjectView {
    seq![("success"@, FieldView::Bool(false)), ("error"@, FieldView::Text(message))]
}

/// The field `success`, and `more` behind it.
pub open spec fn success_fields(more: ObjectView) -> ObjectView {
    seq![("success"@, FieldView::Bool(true))] + more
}

/// The fields for the answer of a storage binding; a streamed body has the number `stream_id`.
pub open spec fn storage_fields(result: StorageResult, stream_id: StreamId) -> ObjectView {
    match result {
        StorageResult::Body(None) => success_fields(seq![]),
        StorageResult::Body(Some(body)) => success_fields(
            seq![("body"@, FieldView::Bytes(body@))],
        ),
        StorageResult::Head { size, etag: None } => success_fields(
            seq![("size"@, FieldView::Number(size))],
        ),
        StorageResult::Head { size, etag: Some(etag) } => success_fields(
            seq![("size"@, FieldView::Number(size)), ("etag"@, FieldView::Text(etag@))],
        ),
        StorageResult::List { keys, truncated } => success_fields(
            seq![
                ("keys"@, FieldView::TextList(texts(keys@))),
                ("truncated"@, FieldView::Bool(truncated)),
            ],
        ),
        StorageResult::Error(message) => failure_fields(message@),
        StorageResult::Response(response) => success_fields(
            seq![
                ("status"@, FieldView::Number(response.status as u64)),
                ("headers"@, FieldView::PairList(pairs(response.headers@))),
            ] + match response.body {
                ResponseBody::Bytes(b) => seq![("body"@, FieldView::Bytes(bytes_seq(b)))],
                ResponseBody::Stream(_) => seq![("streamId"@, FieldView::Number(stream_id))],
                ResponseBody::Empty => seq![],
            },
        ),
    }
}

/// The source of a streamed body in the answer of a storage binding.
pub open spec fn storage_source(result: StorageResult) -> Option<Receiver<Result<Bytes, String>>> {
    match result {
        StorageResult::Response(response) => match response.body {
            ResponseBody::Stream(rx) => Some(rx),
            _ => None,
        },
        _ => None,
    }
}

/// The streams after the answer of a storage binding: a streamed body gets one.
pub open spec fn storage_streams(result: StorageResult, s: StreamsView) -> StreamsView {
    if storage_source(result) is Some {
        s.create("storage_fetch"@)
    } else {
        s
    }
}

/// What a script is handed for the answer of a storage binding, and where the chunks of a
/// streamed body come from.
pub fn populate_storage_result(result: StorageResult, streams: &mut StreamManager) -> (r: (
    ResultObject,
    Option<Receiver<Result<Bytes, String>>>,
))
    requires
        old(streams).wf(),
        storage_source(result) is Some ==> 0 < old(streams).high_water_mark <= max_capacity()
            && old(streams).next_id < u64::MAX && old(streams).next_channel < u64::MAX,
    ensures
        final(streams).wf(),
        final(streams)@ == storage_streams(result, old(streams)@),
        r.0@ == storage_fields(result, old(streams).next_id),
        r.1 == storage_source(result),
{
    let mut obj = ResultObject::new();
    let ghost stream_id = streams.next_id;
    let mut source: Option<Receiver<Result<Bytes, String>>> = None;
    match result {
        StorageResult::Body(maybe_body) => {
            obj.set("success", FieldValue::Bool(true));
            if let Some(body) = maybe_body {
                obj.set("body", FieldValue::Bytes(body));
            }
        },
        StorageResult::Head { size, etag } => {
            obj.set("success", FieldValue::Bool(true));
            obj.set("size", FieldValue::Number(size));
            if let Some(etag) = etag {
                obj.set("etag", FieldValue::Text(etag));
            }
        },
        StorageResult::List { keys, truncated } => {
            obj.set("success", FieldValue::Bool(true));
            obj.set("keys", FieldValue::TextList(keys));
            obj.set("truncated", FieldValue::Bool(truncated));
        },
        StorageResult::Error(message) => {
            obj.set("success", FieldValue::Bool(false));
            obj.set("error", FieldValue::Text(message));
        },
        StorageResult::Response(response) => {
            obj.set("success", FieldValue::Bool(true));
            obj.set("status", FieldValue::Number(response.status as u64));
            obj.set("headers", FieldValue::PairList(response.headers));
            match response.body {
                ResponseBody::Bytes(b) => {
                    obj.set("body", FieldValue::Buffer(b));
                },
                ResponseBody::Stream(rx) => {
                    let id: u64 = streams.create_stream("storage_fetch".to_string());
                    obj.set("streamId", FieldValue::Number(id));
                    source = Some(rx);
                },
                ResponseBody::Empty => {},
            }
        },
    }
    assert(obj@ =~= storage_fields(result, stream_id));
    (obj, source)
}

/// The JSON text that the script engine has to parse for an answer of a key-value binding.
pub open spec fn kv_text(result: KvResult) -> Option<Seq<char>> {
    match result {
        KvResult::Value(Some(v)) => Some(json_text_of(v)),
        _ => None,
    }
}

/// The JSON text that the script engine has to parse for an answer of a key-value binding.
pub fn kv_result_text(result: &KvResult) -> (r: Option<String>)
    ensures
        match r {
            Some(text) => kv_text(*result) == Some(text@),
            None => kv_text(*result) is None,
        },
{
    match result {
        KvResult::Value(Some(v)) => Some(json_text(v)),
        _ => None,
    }
}

/// The fields for the answer of a key-value binding, where `parsed` is what the script engine
/// made of [`kv_text`].
pub open spec fn kv_fields(result: KvResult, parsed: Option<EngineValue>) -> ObjectView {
    match result {
        KvResult::Value(value) => success_fields(
            seq![
                (
                    "value"@,
                    match (value, parsed) {
                        (Some(_), Some(p)) => FieldView::Parsed(p),
                        _ => FieldView::Null,
                    },
                ),
            ],
        ),
        KvResult::Stored => success_fields(seq![]),
        KvResult::Keys(keys) => success_fields(seq![("keys"@, FieldView::TextList(texts(keys@)))]),
        KvResult::Error(message) => failure_fields(message@),
    }
}

/// What a script is handed for the answer of a key-value binding. `parsed` is what the script
/// engine made of the text of [`kv_result_text`]; a text that it could not parse counts as no
/// value.
pub fn populate_kv_result(result: KvResult, parsed: Option<EngineValue>) -> (r: ResultObject)
    ensures
        r@ == kv_fields(result, parsed),
{
    let mut obj = ResultObject::new();
    match result {
        KvResult::Value(value) => {
            obj.set("success", FieldValue::Bool(true));
            match (value, parsed) {
                (Some(_), Some(p)) => {
                    obj.set("value", FieldValue::Parsed(p));
                },
                _ => {
                    obj.set("value", FieldValue::Null);
                },
            }
        },
        KvResult::Stored => {
            obj.set("success", FieldValue::Bool(true));
        },
        KvResult::Keys(keys) => {
            obj.set("success", FieldValue::Bool(true));
            obj.set("keys", FieldValue::TextList(keys));
        },
        KvResult::Error(message) => {
            obj.set("success", FieldValue::Bool(false));
            obj.set("error", FieldValue::Text(message));
        },
    }
    assert(obj@ =~= kv_fields(result, parsed));
    obj
}

/// The fields for the answer of a database binding, where `parsed` is what the script engine
/// made of the rows.
pub open spec fn database_fields(result: DatabaseResult, parsed: Option<EngineValue>) -> ObjectView {
    match result {
        DatabaseResult::Rows(rows) => success_fields(
            seq![
                (
                    "rows"@,
                    match parsed {
                        Some(p) => FieldView::Parsed(p),
                        None => FieldView::Text(rows@),
                    },
                ),
            ],
        ),
        DatabaseResult::Error(message) => failure_fields(message@),
    }
}

/// What a script is handed for the answer of a database binding. `parsed` is what the script
/// engine made of the rows; rows that it could not parse are handed on as text.
pub fn populate_database_result(
    result: DatabaseResult,
    parsed: Option<EngineValue>,
) -> (r: ResultObject)
    ensures
        r@ == database_fields(result, parsed),
{
    let mut obj = ResultObject::new();
    match result {
        DatabaseResult::Rows(rows) => {
            obj.set("success", FieldValue::Bool(true));
            match parsed {
                Some(p) => {
                    obj.set("rows", FieldValue::Parsed(p));
                },
                None => {
                    obj.set("rows", FieldValue::Text(rows));
                },
            }
        },
        DatabaseResult::Error(message) => {
            obj.set("success", FieldValue::Bool(false));
            obj.set("error", FieldValue::Text(message));
        },
    }
    assert(obj@ =~= database_fields(result, parsed));
    obj
}

/// The fields `status`, `body` and `headers`.
pub open spec fn response_fields(
    status: u16,
    headers: Seq<(String, String)>,
    body: Seq<u8>,
) -> ObjectView {
    seq![
        ("status"@, FieldView::Number(status as u64)),
        ("body"@, FieldView::Bytes(body)),
        ("headers"@, FieldView::Record(pairs(headers))),
    ]
}

/// What a script is handed for a response that has arrived as a whole.
pub fn create_response_object(
    status: u16,
    headers: Vec<(String, String)>,
    body: Vec<u8>,
) -> (r: ResultObject)
    ensures
        r@ == response_fields(status, headers@, body@),
{
    let mut obj = ResultObject::new();
    obj.set("status", FieldValue::Number(status as u64));
    obj.set("body", FieldValue::Bytes(body));
    obj.set("headers", FieldValue::Record(headers));
    assert(obj@ =~= response_fields(status, headers@, body@));
    obj
}

/// Every answer of a binding says first whether the operation succeeded, and says why where it
/// did not.
pub proof fn answers_say_success_first(
    storage: StorageResult,
    kv: KvResult,
    database: DatabaseResult,
    stream_id: StreamId,
    parsed: Option<EngineValue>,
)
    ensures
        storage_fields(storage, stream_id)[0] == ("success"@, FieldView::Bool(
            !(storage is Error),
        )),
        kv_fields(kv, parsed)[0] == ("success"@, FieldView::Bool(!(kv is Error))),
        database_fields(database, parsed)[0] == ("success"@, FieldView::Bool(
            !(database is Error),
        )),
        storage matches StorageResult::Error(m) ==> storage_fields(storage, stream_id)[1] == (
            "error"@,
            FieldView::Text(m@),
        ),
        kv matches KvResult::Error(m) ==> kv_fields(kv, parsed)[1] == (
            "error"@,
            FieldView::Text(m@),
        ),
        database matches DatabaseResult::Error(m) ==> database_fields(database, parsed)[1] == (
            "error"@,
            FieldView::Text(m@),
        ),
{
}

/// Where the engine has parsed the rows of a database, a script is handed the parsed value and not
/// their text; the text is handed on only where there is no such value. Nothing else comes along.
pub proof fn parsed_rows_are_handed_on(rows: String, p: EngineValue)
    ensures
        database_fields(DatabaseResult::Rows(rows), Some(p)).len() == 2,
        database_fields(DatabaseResult::Rows(rows), Some(p))[1] == ("rows"@, FieldView::Parsed(p)),
        database_fields(DatabaseResult::Rows(rows), None).len() == 2,
        database_fields(DatabaseResult::Rows(rows), None)[1] == ("rows"@, FieldView::Text(rows@)),
{
}

/// A value that a key-value binding has found, and that the engine has parsed, is handed on as
/// parsed; one that was not found, or not parsed, is `null`. Keys are handed on one by one, in
/// their order, and what was stored is answered with the success alone.
pub proof fn key_value_answers_are_handed_on(
    v: serde_json::Value,
    p: EngineValue,
    parsed: Option<EngineValue>,
    keys: Vec<String>,
)
    ensures
        kv_fields(KvResult::Value(Some(v)), Some(p)).len() == 2,
        kv_fields(KvResult::Value(Some(v)), Some(p))[1] == ("value"@, FieldView::Parsed(p)),
        kv_fields(KvResult::Value(Some(v)), None).len() == 2,
        kv_fields(KvResult::Value(Some(v)), None)[1] == ("value"@, FieldView::Null),
        kv_fields(KvResult::Value(None), parsed).len() == 2,
        kv_fields(KvResult::Value(None), parsed)[1] == ("value"@, FieldView::Null),
        kv_fields(KvResult::Stored, parsed).len() == 1,
        ({
            let fields = kv_fields(KvResult::Keys(keys), parsed);
            &&& fields.len() == 2
            &&& fields[1].0 == "keys"@
            &&& fields[1].1 matches FieldView::TextList(list)
            &&& list.len() == keys@.len()
            &&& forall|i: int| 0 <= i < keys@.len() ==> #[trigger] list[i] == keys@[i]@
        }),
{
}

/// The only text of a key-value answer that the engine has to parse is that of a value that was
/// found, and it is the JSON text of that value.
pub proof fn found_values_are_parsed(v: serde_json::Value, keys: Vec<String>, message: String)
    ensures
        kv_text(KvResult::Value(Some(v))) == Some(json_text_of(v)),
        kv_text(KvResult::Value(None)) is None,
        kv_text(KvResult::Stored) is None,
        kv_text(KvResult::Keys(keys)) is None,
        kv_text(KvResult::Error(message)) is None,
{
}

/// What a storage binding has found is handed on: the bytes of an object, where there is one; its
/// size, and its tag, where it has one; the keys, one by one and in their order, and whether there
/// are more.
pub proof fn storage_answers_are_handed_on(
    body: Vec<u8>,
    size: u64,
    etag: String,
    keys: Vec<String>,
    truncated: bool,
    stream_id: StreamId,
)
    ensures
        storage_fields(StorageResult::Body(None), stream_id).len() == 1,
        storage_fields(StorageResult::Body(Some(body)), stream_id).len() == 2,
        storage_fields(StorageResult::Body(Some(body)), stream_id)[1] == (
            "body"@,
            FieldView::Bytes(body@),
        ),
        storage_fields(StorageResult::Head { size, etag: None }, stream_id).len() == 2,
        storage_fields(StorageResult::Head { size, etag: None }, stream_id)[1] == (
            "size"@,
            FieldView::Number(size),
        ),
        storage_fields(StorageResult::Head { size, etag: Some(etag) }, stream_id).len() == 3,
        storage_fields(StorageResult::Head { size, etag: Some(etag) }, stream_id)[1] == (
            "size"@,
            FieldView::Number(size),
        ),
        storage_fields(StorageResult::Head { size, etag: Some(etag) }, stream_id)[2] == (
            "etag"@,
            FieldView::Text(etag@),
        ),
        ({
            let fields = storage_fields(StorageResult::List { keys, truncated }, stream_id);
            &&& fields.len() == 3
            &&& fields[2] == ("truncated"@, FieldView::Bool(truncated))
            &&& fields[1].0 == "keys"@
            &&& fields[1].1 matches FieldView::TextList(list)
            &&& list.len() == keys@.len()
            &&& forall|i: int| 0 <= i < keys@.len() ==> #[trigger] list[i] == keys@[i]@
        }),
{
}

/// A response of a storage binding is handed on with its status, with its headers, one by one and
/// in their order, and with its body: the bytes of a complete one, the number of the new stream
/// for one that arrives in chunks, and nothing where there is none. A stream is made, and a source
/// handed out, exactly for a body that arrives in chunks.
pub proof fn storage_responses_are_handed_on(
    response: crate::task::HttpResponse,
    s: StreamsView,
    stream_id: StreamId,
)
    ensures
        ({
            let result = StorageResult::Response(response);
            let fields = storage_fields(result, stream_id);
            &&& fields[1] == ("status"@, FieldView::Number(response.status as u64))
            &&& fields[2].0 == "headers"@
            &&& fields[2].1 matches FieldView::PairList(list)
            &&& list.len() == response.headers@.len()
            &&& forall|i: int|
                0 <= i < response.headers@.len() ==> #[trigger] list[i] == (response.headers@[i].0@, response.headers@[i].1@)
            &&& match response.body {
                ResponseBody::Bytes(b) => {
                    &&& fields.len() == 4
                    &&& fields[3] == ("body"@, FieldView::Bytes(bytes_seq(b)))
                    &&& storage_source(result) is None
                    &&& storage_streams(result, s) == s
                },
                ResponseBody::Stream(rx) => {
                    &&& fields.len() == 4
                    &&& fields[3] == ("streamId"@, FieldView::Number(stream_id))
                    &&& storage_source(result) == Some(rx)
                    &&& storage_streams(result, s) == s.create("storage_fetch"@)
                },
                ResponseBody::Empty => {
                    &&& fields.len() == 3
                    &&& storage_source(result) is None
                    &&& storage_streams(result, s) == s
                },
            }
        }),
{
}

/// An answer of a storage binding that is no response brings no chunks, and no stream is made for
/// it.
pub proof fn only_responses_are_streamed(result: StorageResult, s: StreamsView)
    requires
        !(result is Response),
    ensures
        storage_source(result) is None,
        storage_streams(result, s) == s,
{
}

/// A script learns of a response its status and the text of it, its headers, one by one and in
/// their order, and the stream that its body arrives on.
pub proof fn fetched_responses_are_handed_on(meta: HttpResponseMeta, stream_id: StreamId)
    ensures
        ({
            let fields = fetch_meta_fields(meta, stream_id);
            &&& fields.len() == 4
            &&& fields[0] == ("status"@, FieldView::Number(meta.status as u64))
            &&& fields[1] == ("statusText"@, FieldView::Text(meta.status_text@))
            &&& fields[3] == ("streamId"@, FieldView::Number(stream_id))
            &&& fields[2].0 == "headers"@
            &&& fields[2].1 matches FieldView::PairList(list)
            &&& list.len() == meta.headers@.len()
            &&& forall|i: int|
                0 <= i < meta.headers@.len() ==> #[trigger] list[i] == (meta.headers@[i].0@, meta.headers@[i].1@)
        }),
{
}

/// A response that has arrived as a whole is handed on with its status, its bytes, and its headers,
/// one by one and in their order.
pub proof fn whole_responses_are_handed_on(
    status: u16,
    headers: Seq<(String, String)>,
    body: Seq<u8>,
)
    ensures
        ({
            let fields = response_fields(status, headers, body);
            &&& fields.len() == 3
            &&& fields[0] == ("status"@, FieldView::Number(status as u64))
            &&& fields[1] == ("body"@, FieldView::Bytes(body))
            &&& fields[2].0 == "headers"@
            &&& fields[2].1 matches FieldView::Record(list)
            &&& list.len() == headers.len()
            &&& forall|i: int|
                0 <= i < headers.len() ==> #[trigger] list[i] == (headers[i].0@, headers[i].1@)
        }),
{
}

/// What a field is seen as is what it holds.
pub proof fn fields_show_what_they_hold(
    flag: bool,
    number: u64,
    text: String,
    buffer: Bytes,
    bytes: Vec<u8>,
)
    ensures
        FieldValue::Null@ == FieldView::Null,
        FieldValue::Bool(flag)@ == FieldView::Bool(flag),
        FieldValue::Number(number)@ == FieldView::Number(number),
        FieldValue::Text(text)@ == FieldView::Text(text@),
        FieldValue::Buffer(buffer)@ == FieldView::Bytes(bytes_seq(buffer)),
        FieldValue::Bytes(bytes)@ == FieldView::Bytes(bytes@),
        FieldValue::Parsed(number)@ == FieldView::Parsed(number),
{
}

/// What is seen of an object is its fields, with their names, in their order.
pub proof fn objects_show_their_fields(o: ResultObject, i: int)
    ensures
        o@.len() == o.fields@.len(),
        0 <= i < o.fields@.len() ==> o@[i] == (o.fields@[i].name@, o.fields@[i].value@),
{
}

/// What is seen of a list is its texts, or its pairs of texts, in their order.
pub proof fn lists_show_their_texts(
    list: Vec<String>,
    several: Vec<(String, String)>,
)
    ensures
        FieldValue::TextList(list)@ == FieldView::TextList(
            Seq::new(list@.len(), |i: int| list@[i]@),
        ),
        FieldValue::PairList(several)@ == FieldView::PairList(
            Seq::new(several@.len(), |i: int| (several@[i].0@, several@[i].1@)),
        ),
        FieldValue::Record(several)@ == FieldView::Record(
            Seq::new(several@.len(), |i: int| (several@[i].0@, several@[i].1@)),
        ),
{
    assert(texts(list@) =~= Seq::new(list@.len(), |i: int| list@[i]@));
    assert(pairs(several@) =~= Seq::new(
        several@.len(),
        |i: int| (several@[i].0@, several@[i].1@),
    ));
}

} // verus!
