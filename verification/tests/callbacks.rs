use bytes::Bytes;
use openworkers_runtime::bindings::{
    console_level, native_clear_timer, native_schedule_interval, native_schedule_timeout,
    native_stream_cancel, native_websocket_close, native_websocket_send, user_agent,
    DatabaseParams, FetchOptions, KvParams, PerformanceState, SocketData, StorageParams,
};
use openworkers_runtime::callback_handlers::{
    create_response_object, populate_database_result, populate_kv_result, populate_storage_result,
    populate_stream_chunk_result, FieldValue, ResultObject,
};
use openworkers_runtime::chunk_channel::StreamChunk;
use openworkers_runtime::dispatch::{message_text, Argument, Call, Tables};
use openworkers_runtime::fetch::HttpMethod;
use openworkers_runtime::operations::{
    CallbackMessage, DatabaseOp, DatabaseResult, HttpResponseMeta, KvOp, KvResult, LogLevel,
    RequestBody, SchedulerMessage, StorageOp, StorageResult, WebSocketIncoming, WebSocketOutgoing,
};
use openworkers_runtime::stream_manager::StreamManager;
use openworkers_runtime::task::{HttpResponse, ResponseBody};
use serde_json::Value;

fn names(object: &ResultObject) -> Vec<&'static str> {
    object.fields.iter().map(|f| f.name).collect()
}

fn text(s: &str) -> Option<String> {
    Some(s.to_string())
}

fn options(url: &str) -> FetchOptions {
    FetchOptions { url: url.to_string(), method: None, headers: vec![], body: None }
}

fn storage_params() -> StorageParams {
    StorageParams { key: "k".to_string(), body: None, prefix: None, limit: None }
}

fn kv_params(value: Option<Value>) -> KvParams {
    KvParams { key: "k".to_string(), value, expires_in: Some(60), prefix: None, limit: None }
}

fn error_of(call: Option<Call>) -> (u64, String) {
    match call {
        Some(Call::Function(f, Argument::Error(m))) => (f, m),
        _ => panic!("Expected an error"),
    }
}

#[test]
fn a_request_settles_once() {
    let mut tables = Tables::new();
    let mut streams = StreamManager::new();
    let id = tables.register_callbacks_with_error(10, 11);
    assert_eq!(id, 1);
    let failed = tables.dispatch(
        CallbackMessage::FetchError(id, "down".to_string()),
        None,
        &mut streams,
    );
    assert_eq!(error_of(failed.call), (11, "down".to_string()));
    let meta =
        HttpResponseMeta { status: 200, status_text: "OK".to_string(), headers: vec![] };
    let late = tables.dispatch(
        CallbackMessage::FetchStreamingSuccess(id, meta, 3),
        None,
        &mut streams,
    );
    assert!(late.call.is_none());
}

#[test]
fn a_response_reaches_the_callback_for_success() {
    let mut tables = Tables::new();
    let mut streams = StreamManager::new();
    let id = tables.register_callbacks_with_error(10, 11);
    let meta = HttpResponseMeta {
        status: 404,
        status_text: "Not Found".to_string(),
        headers: vec![("x".to_string(), "y".to_string())],
    };
    let done = tables.dispatch(
        CallbackMessage::FetchStreamingSuccess(id, meta, 3),
        None,
        &mut streams,
    );
    match done.call {
        Some(Call::Function(10, Argument::Object(o))) => {
            assert_eq!(names(&o), vec!["status", "statusText", "headers", "streamId"]);
            assert!(matches!(o.fields[0].value, FieldValue::Number(404)));
            assert!(matches!(&o.fields[1].value, FieldValue::Text(t) if t == "Not Found"));
            assert!(matches!(&o.fields[2].value, FieldValue::PairList(p) if p.len() == 1));
            assert!(matches!(o.fields[3].value, FieldValue::Number(3)));
        }
        _ => panic!("Expected an object"),
    }
}

#[test]
fn timers_and_sockets_reach_the_script_again_and_again() {
    let mut tables = Tables::new();
    let mut streams = StreamManager::new();
    let ran = tables.dispatch(CallbackMessage::ExecuteTimeout(4), None, &mut streams);
    assert!(matches!(ran.call, Some(Call::Timer(4))));
    let accepted = tables.native_websocket_accept(Some(7), Some(20));
    assert!(matches!(accepted, Some(SchedulerMessage::WebSocketAccept(7))));
    for _ in 0..2 {
        let event = WebSocketIncoming::Text("hi".to_string());
        let got =
            tables.dispatch(CallbackMessage::WebSocketEvent(7, event), None, &mut streams);
        assert!(matches!(
            got.call,
            Some(Call::Function(20, Argument::Event(WebSocketIncoming::Text(_))))
        ));
    }
    let event = WebSocketIncoming::Error("x".to_string());
    let got = tables.dispatch(CallbackMessage::WebSocketEvent(8, event), None, &mut streams);
    assert!(got.call.is_none());
}

#[test]
fn a_chunk_is_delivered_once() {
    let mut tables = Tables::new();
    let mut streams = StreamManager::new();
    assert!(matches!(
        tables.native_stream_read(9, 30),
        SchedulerMessage::StreamRead(1, 9)
    ));
    let chunk = StreamChunk::Data(Bytes::from("abc"));
    let got = tables.dispatch(CallbackMessage::StreamChunk(1, chunk), None, &mut streams);
    match got.call {
        Some(Call::Function(30, Argument::Object(o))) => {
            assert_eq!(names(&o), vec!["done", "value"]);
            assert!(matches!(&o.fields[1].value, FieldValue::Buffer(b) if b == "abc"));
        }
        _ => panic!("Expected an object"),
    }
    let got =
        tables.dispatch(CallbackMessage::StreamChunk(1, StreamChunk::Done), None, &mut streams);
    assert!(got.call.is_none());
}

#[test]
fn a_connection_settles_with_its_number() {
    let mut tables = Tables::new();
    let mut streams = StreamManager::new();
    let asked = tables.native_websocket_connect(text("wss://x"), None, Some(1), Some(2));
    assert!(matches!(
        asked,
        Some(SchedulerMessage::WebSocketConnect(1, u, h)) if u == "wss://x" && h.is_empty()
    ));
    let got = tables.dispatch(CallbackMessage::WebSocketConnected(1, 77), None, &mut streams);
    assert!(matches!(got.call, Some(Call::Function(1, Argument::Number(77)))));
    tables.native_websocket_connect(text("wss://x"), None, Some(1), Some(2));
    let got = tables.dispatch(
        CallbackMessage::WebSocketConnectError(2, "refused".to_string()),
        None,
        &mut streams,
    );
    assert_eq!(error_of(got.call), (2, "refused".to_string()));
}

#[test]
fn answers_of_bindings_settle_their_callbacks() {
    let mut tables = Tables::new();
    let mut streams = StreamManager::new();
    let asked = tables.native_binding_kv(
        5,
        text("KV"),
        text("put"),
        Some(kv_params(Some(Value::from(3)))),
        Some(40),
        Some(41),
    );
    match asked {
        Some(SchedulerMessage::BindingKv(1, b, KvOp::Put { key, value, expires_in })) => {
            assert_eq!((b.as_str(), key.as_str()), ("KV", "k"));
            assert_eq!(value, Value::from(3));
            assert_eq!(expires_in, Some(60));
        }
        _ => panic!("Expected a put"),
    }
    let answer = CallbackMessage::KvResult(1, KvResult::Value(Some(Value::from(3))));
    assert_eq!(message_text(&answer), text("3"));
    let got = tables.dispatch(answer, Some(99), &mut streams);
    match got.call {
        Some(Call::Function(40, Argument::Object(o))) => {
            assert_eq!(names(&o), vec!["success", "value"]);
            assert!(matches!(o.fields[1].value, FieldValue::Parsed(99)));
        }
        _ => panic!("Expected an object"),
    }
    let id = tables.register_callbacks_with_error(42, 43);
    let got = tables.dispatch(
        CallbackMessage::DatabaseResult(id, DatabaseResult::Error("bad sql".to_string())),
        None,
        &mut streams,
    );
    assert_eq!(error_of(got.call), (43, "bad sql".to_string()));
    let id = tables.register_callback(44);
    let got = tables.dispatch(
        CallbackMessage::StorageResult(id, StorageResult::Error("gone".to_string())),
        None,
        &mut streams,
    );
    assert!(got.call.is_none());
}

#[test]
fn a_missing_value_is_stored_as_null() {
    let mut tables = Tables::new();
    let asked =
        tables.native_binding_kv(4, text("KV"), text("put"), Some(kv_params(None)), Some(1), None);
    assert!(matches!(
        asked,
        Some(SchedulerMessage::BindingKv(_, _, KvOp::Put { value: Value::Null, .. }))
    ));
}

#[test]
fn a_streamed_answer_of_a_storage_gets_a_stream() {
    let mut streams = StreamManager::new();
    let (_tx, rx) = tokio::sync::mpsc::channel(1);
    let response = HttpResponse { status: 206, headers: vec![], body: ResponseBody::Stream(rx) };
    let (object, source) =
        populate_storage_result(StorageResult::Response(response), &mut streams);
    assert_eq!(names(&object), vec!["success", "status", "headers", "streamId"]);
    assert!(matches!(object.fields[3].value, FieldValue::Number(1)));
    assert!(source.is_some());
    assert_eq!(streams.get_stream_info(1), text("storage_fetch"));
}

#[test]
fn answers_say_success_first() {
    let mut streams = StreamManager::new();
    let head = StorageResult::Head { size: 5, etag: text("e") };
    let (object, source) = populate_storage_result(head, &mut streams);
    assert_eq!(names(&object), vec!["success", "size", "etag"]);
    assert!(source.is_none());
    let list = StorageResult::List { keys: vec!["a".to_string()], truncated: true };
    let (object, _) = populate_storage_result(list, &mut streams);
    assert_eq!(names(&object), vec!["success", "keys", "truncated"]);
    let (object, _) = populate_storage_result(StorageResult::Body(Some(vec![1])), &mut streams);
    assert!(matches!(&object.fields[1].value, FieldValue::Bytes(b) if b == &vec![1]));
    let object = populate_kv_result(KvResult::Error("e".to_string()), None);
    assert!(matches!(object.fields[0].value, FieldValue::Bool(false)));
    assert!(matches!(&object.fields[1].value, FieldValue::Text(t) if t == "e"));
    let object = populate_kv_result(KvResult::Value(Some(Value::Null)), None);
    assert!(matches!(object.fields[1].value, FieldValue::Null));
    let object = populate_database_result(DatabaseResult::Rows("[".to_string()), None);
    assert!(matches!(&object.fields[1].value, FieldValue::Text(t) if t == "["));
    let object = create_response_object(200, vec![], vec![7]);
    assert_eq!(names(&object), vec!["status", "body", "headers"]);
}

#[test]
fn a_script_makes_requests() {
    let mut tables = Tables::new();
    let mut o = options("https://x");
    o.method = text("post");
    o.body = Some(vec![1, 2]);
    match tables.native_fetch_streaming(3, Some(o), Some(1), Some(2)) {
        Some(SchedulerMessage::FetchStreaming(1, r)) => {
            assert_eq!(r.method, HttpMethod::Post);
            assert!(matches!(r.body, RequestBody::Bytes(b) if b == Bytes::from(vec![1u8, 2])));
        }
        _ => panic!("Expected a request"),
    }
    assert!(tables.native_fetch_streaming(2, Some(options("u")), Some(1), Some(2)).is_none());
    let asked =
        tables.native_binding_fetch(false, 4, text("A"), Some(options("u")), Some(1), Some(2));
    assert!(matches!(asked, Some(SchedulerMessage::BindingFetch(2, b, _)) if b == "A"));
    let asked =
        tables.native_binding_fetch(true, 4, text("W"), Some(options("u")), Some(1), Some(2));
    assert!(matches!(asked, Some(SchedulerMessage::BindingWorker(3, b, _)) if b == "W"));
}

#[test]
fn operations_of_bindings_are_read_by_name() {
    let mut tables = Tables::new();
    let mut storage = |op: &str| {
        tables.native_binding_storage(4, text("S"), text(op), Some(storage_params()), Some(1), None)
    };
    assert!(matches!(
        storage("get"),
        Some(SchedulerMessage::BindingStorage(_, _, StorageOp::Get { .. }))
    ));
    assert!(matches!(
        storage("list"),
        Some(SchedulerMessage::BindingStorage(_, _, StorageOp::List { .. }))
    ));
    assert!(storage("rename").is_none());
    let params = DatabaseParams { sql: "select 1".to_string(), params: vec!["a".to_string()] };
    let asked =
        tables.native_binding_database(4, text("D"), text("query"), Some(params), Some(1), None);
    assert!(matches!(
        asked,
        Some(SchedulerMessage::BindingDatabase(_, _, DatabaseOp::Query { sql, params }))
            if sql == "select 1" && params.len() == 1
    ));
}

#[test]
fn small_messages_carry_what_they_are_given() {
    assert!(matches!(native_schedule_timeout(1, 2), SchedulerMessage::ScheduleTimeout(1, 2)));
    assert!(matches!(native_schedule_interval(1, 2), SchedulerMessage::ScheduleInterval(1, 2)));
    assert!(matches!(native_clear_timer(3), SchedulerMessage::ClearTimer(3)));
    assert!(matches!(native_stream_cancel(4), SchedulerMessage::StreamCancel(4)));
    assert!(matches!(
        native_websocket_send(Some(1), SocketData::Bytes(vec![1])),
        SchedulerMessage::WebSocketSend(1, WebSocketOutgoing::Binary(b)) if b == vec![1]
    ));
    assert!(matches!(
        native_websocket_send(None, SocketData::Other(None)),
        SchedulerMessage::WebSocketSend(0, WebSocketOutgoing::Text(t)) if t.is_empty()
    ));
    assert!(matches!(
        native_websocket_close(Some(1), None, None),
        SchedulerMessage::WebSocketClose(1, 1000, r) if r.is_empty()
    ));
    assert_eq!(console_level(0), LogLevel::Error);
    assert_eq!(console_level(4), LogLevel::Trace);
    assert_eq!(console_level(-1), LogLevel::Info);
    assert_eq!(user_agent("1.2.3"), "OpenWorkers/1.2.3 (v8)");
}

#[test]
fn the_clock_of_a_script_is_coarse() {
    let state = PerformanceState { start: 1_000 };
    assert_eq!(state.performance_now(1_000), 0);
    assert_eq!(state.performance_now(1_000 + 1_234_567), 1_234_500);
}

#[test]
fn every_chunk_says_whether_it_is_the_last() {
    let data = populate_stream_chunk_result(StreamChunk::Data(Bytes::from("abc")));
    assert_eq!(names(&data), ["done", "value"]);
    assert!(matches!(data.fields[0].value, FieldValue::Bool(false)));
    assert!(matches!(&data.fields[1].value, FieldValue::Buffer(b) if b == "abc"));
    let done = populate_stream_chunk_result(StreamChunk::Done);
    assert_eq!(names(&done), ["done"]);
    assert!(matches!(done.fields[0].value, FieldValue::Bool(true)));
    let error = populate_stream_chunk_result(StreamChunk::Error("boom".to_string()));
    assert_eq!(names(&error), ["done", "error"]);
    assert!(matches!(error.fields[0].value, FieldValue::Bool(true)));
    assert!(matches!(&error.fields[1].value, FieldValue::Text(m) if m == "boom"));
}
