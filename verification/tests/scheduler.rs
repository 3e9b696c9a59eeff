use bytes::Bytes;
use openworkers_runtime::chunk_channel::StreamChunk;
use openworkers_runtime::fetch::HttpMethod;
use openworkers_runtime::operations::{
    CallbackMessage, DatabaseResult, HttpRequest, KvOp, KvResult, LogLevel, Operation,
    OperationResult, RequestBody, SchedulerMessage, StorageOp, StorageResult,
};
use openworkers_runtime::scheduler::{
    convert_fetch_result_to_stream, convert_worker_result_to_stream, database_reply, kv_reply,
    status_text, storage_reply, stream_reply, EventLoop, LoopAction, Reply, Timer,
    UNEXPECTED_RESULT,
};
use openworkers_runtime::stream_manager::{ReadOutcome, StreamManager};
use openworkers_runtime::task::{HttpResponse, ResponseBody};

fn timeout(id: u64, ms: u64) -> Timer {
    Timer { id, is_interval: false, interval_ms: ms }
}

fn request(url: &str) -> HttpRequest {
    HttpRequest {
        url: url.to_string(),
        method: HttpMethod::Get,
        headers: vec![],
        body: RequestBody::Empty,
    }
}

#[test]
fn a_timeout_fires_once() {
    let mut lp = EventLoop::new();
    let step = lp.on_message(Some(SchedulerMessage::ScheduleTimeout(5, 100)));
    assert!(!step.exit);
    assert_eq!(step.actions.len(), 1);
    assert!(matches!(step.actions[0], LoopAction::StartTimer(t) if t.id == 5 && !t.is_interval));
    let timer = lp.timers[0];
    let step = lp.on_timer(timer);
    assert_eq!(step.actions.len(), 1);
    assert!(matches!(
        step.actions[0],
        LoopAction::Send(CallbackMessage::ExecuteTimeout(5))
    ));
    assert!(lp.timers.is_empty());
}

#[test]
fn an_interval_fires_again_and_again() {
    let mut lp = EventLoop::new();
    lp.on_message(Some(SchedulerMessage::ScheduleInterval(6, 20)));
    for _ in 0..3 {
        let timer = lp.timers[0];
        let step = lp.on_timer(timer);
        let sends = step
            .actions
            .iter()
            .filter(|a| matches!(a, LoopAction::Send(CallbackMessage::ExecuteInterval(6))))
            .count();
        let starts = step
            .actions
            .iter()
            .filter(|a| matches!(a, LoopAction::StartTimer(t) if t.id == 6 && t.interval_ms == 20))
            .count();
        assert_eq!((sends, starts), (1, 1));
        assert_eq!(lp.timers.len(), 1);
    }
}

#[test]
fn a_cleared_timer_stays_silent() {
    let mut lp = EventLoop::new();
    lp.on_message(Some(SchedulerMessage::ScheduleInterval(7, 20)));
    let timer = lp.timers[0];
    lp.on_message(Some(SchedulerMessage::ClearTimer(7)));
    let step = lp.on_timer(timer);
    assert!(step.actions.is_empty());
}

#[test]
fn a_timer_with_a_cleared_number_can_be_scheduled_again() {
    let mut lp = EventLoop::new();
    lp.on_message(Some(SchedulerMessage::ClearTimer(8)));
    lp.on_message(Some(SchedulerMessage::ScheduleTimeout(8, 1)));
    let timer = lp.timers[0];
    assert_eq!(timer, timeout(8, 1));
    assert_eq!(lp.on_timer(timer).actions.len(), 1);
}

#[test]
fn operations_are_handed_on_with_their_reply() {
    let mut lp = EventLoop::new();
    let step = lp.on_message(Some(SchedulerMessage::FetchStreaming(1, request("u"))));
    assert!(matches!(
        &step.actions[..],
        [LoopAction::Perform(Reply::Fetch(1), Operation::Fetch(r))] if r.url == "u"
    ));
    let step = lp.on_message(Some(SchedulerMessage::BindingStorage(
        2,
        "S".to_string(),
        StorageOp::Get { key: "k".to_string() },
    )));
    assert!(matches!(
        &step.actions[..],
        [LoopAction::Perform(Reply::Storage(2), Operation::BindingStorage(b, StorageOp::Get { key }))]
            if b == "S" && key == "k"
    ));
    let step = lp.on_message(Some(SchedulerMessage::BindingKv(
        3,
        "K".to_string(),
        KvOp::Delete { key: "k".to_string() },
    )));
    assert!(matches!(
        &step.actions[..],
        [LoopAction::Perform(Reply::Kv(3), Operation::BindingKv(_, KvOp::Delete { .. }))]
    ));
    let step =
        lp.on_message(Some(SchedulerMessage::BindingWorker(4, "W".to_string(), request("w"))));
    assert!(matches!(
        &step.actions[..],
        [LoopAction::Perform(Reply::Worker(4), Operation::BindingWorker(_, _))]
    ));
    let step = lp.on_message(Some(SchedulerMessage::Log(LogLevel::Warn, "m".to_string())));
    assert!(matches!(
        &step.actions[..],
        [LoopAction::Perform(Reply::Nowhere, Operation::Log(LogLevel::Warn, m))] if m == "m"
    ));
    let step = lp.on_message(Some(SchedulerMessage::StreamRead(5, 9)));
    assert!(matches!(step.actions[0], LoopAction::ReadStream(5, 9)));
    let step = lp.on_message(Some(SchedulerMessage::StreamCancel(9)));
    assert!(matches!(step.actions[0], LoopAction::CloseStream(9)));
}

#[test]
fn a_shutdown_ends_the_loop_when_no_timer_is_left() {
    let mut lp = EventLoop::new();
    assert!(lp.on_message(Some(SchedulerMessage::Shutdown)).exit);
    assert!(lp.shutdown);
}

#[test]
fn known_statuses_have_a_reason() {
    assert_eq!(status_text(200), "OK");
    assert_eq!(status_text(404), "Not Found");
    assert_eq!(status_text(429), "Too Many Requests");
    assert_eq!(status_text(504), "Gateway Timeout");
    assert_eq!(status_text(299), "");
}

#[test]
fn the_body_of_a_response_becomes_a_stream() {
    let mut streams = StreamManager::new();
    let response = HttpResponse {
        status: 201,
        headers: vec![("a".to_string(), "b".to_string())],
        body: ResponseBody::Bytes(Bytes::from("body")),
    };
    let opened =
        convert_fetch_result_to_stream(OperationResult::Http(Ok(response)), &mut streams).ok().unwrap();
    assert_eq!(opened.meta.status, 201);
    assert_eq!(opened.meta.status_text, "Created");
    assert_eq!(opened.meta.headers, vec![("a".to_string(), "b".to_string())]);
    assert!(opened.source.is_none());
    match streams.read_chunk(opened.stream_id) {
        ReadOutcome::Done(Ok(StreamChunk::Data(b))) => assert_eq!(b, Bytes::from("body")),
        _ => panic!("Expected data"),
    }
    assert!(matches!(
        streams.read_chunk(opened.stream_id),
        ReadOutcome::Done(Ok(StreamChunk::Done))
    ));
}

#[test]
fn a_fetch_that_failed_or_brought_something_else_is_an_error() {
    let mut streams = StreamManager::new();
    let mut error = |result| convert_fetch_result_to_stream(result, &mut streams).err().unwrap();
    assert_eq!(error(OperationResult::Http(Err("no route".to_string()))), "no route");
    assert_eq!(error(OperationResult::Ack), "Unexpected Ack result for fetch");
    assert_eq!(
        error(OperationResult::Kv(KvResult::Stored)),
        "Unexpected Kv result for fetch"
    );
    assert_eq!(
        error(OperationResult::Storage(StorageResult::Body(None))),
        "Unexpected Storage result for fetch"
    );
    assert_eq!(
        error(OperationResult::Database(DatabaseResult::Rows(String::new()))),
        "Unexpected Database result for fetch"
    );
    assert_eq!(
        convert_worker_result_to_stream(OperationResult::Ack, &mut streams).err().unwrap(),
        "Unexpected result type for worker binding"
    );
}

#[test]
fn answers_of_another_kind_are_errors() {
    assert!(matches!(
        storage_reply(1, OperationResult::Ack),
        CallbackMessage::StorageResult(1, StorageResult::Error(m)) if m == UNEXPECTED_RESULT
    ));
    assert!(matches!(
        kv_reply(2, OperationResult::Kv(KvResult::Stored)),
        CallbackMessage::KvResult(2, KvResult::Stored)
    ));
    assert!(matches!(
        kv_reply(2, OperationResult::Ack),
        CallbackMessage::KvResult(2, KvResult::Error(m)) if m == UNEXPECTED_RESULT
    ));
    assert!(matches!(
        database_reply(3, OperationResult::Ack),
        CallbackMessage::DatabaseResult(3, DatabaseResult::Error(m)) if m == UNEXPECTED_RESULT
    ));
    assert!(matches!(
        stream_reply(4, Err("gone".to_string())),
        CallbackMessage::StreamChunk(4, StreamChunk::Error(m)) if m == "gone"
    ));
    assert!(matches!(
        stream_reply(4, Ok(StreamChunk::Done)),
        CallbackMessage::StreamChunk(4, StreamChunk::Done)
    ));
}

#[test]
fn a_shutdown_waits_for_the_last_timer() {
    let mut lp = EventLoop::new();
    lp.on_message(Some(SchedulerMessage::ScheduleTimeout(1, 10)));
    let timer = lp.timers[0];
    lp.on_message(Some(SchedulerMessage::ClearTimer(1)));
    assert!(!lp.on_message(Some(SchedulerMessage::Shutdown)).exit);
    let step = lp.on_timer(timer);
    assert!(step.actions.is_empty());
    assert!(step.exit);

    let mut lp = EventLoop::new();
    lp.on_message(Some(SchedulerMessage::ScheduleInterval(2, 10)));
    lp.on_message(Some(SchedulerMessage::ScheduleTimeout(3, 10)));
    let (interval, timeout) = (lp.timers[0], lp.timers[1]);
    assert!(!lp.on_message(Some(SchedulerMessage::Shutdown)).exit);
    assert!(!lp.on_timer(timeout).exit);
    assert!(!lp.on_timer(interval).exit);
    assert!(!lp.on_message(Some(SchedulerMessage::ClearTimer(2))).exit);
    assert!(lp.on_timer(interval).exit);
}

#[test]
fn a_cleared_timer_ends_no_loop_that_was_not_shut_down() {
    let mut lp = EventLoop::new();
    lp.on_message(Some(SchedulerMessage::ScheduleTimeout(1, 10)));
    let timer = lp.timers[0];
    lp.on_message(Some(SchedulerMessage::ClearTimer(1)));
    assert!(!lp.on_timer(timer).exit);
}

#[test]
fn a_cleared_interval_never_comes_back() {
    let mut lp = EventLoop::new();
    lp.on_message(Some(SchedulerMessage::ScheduleInterval(1, 10)));
    lp.on_message(Some(SchedulerMessage::ScheduleInterval(2, 10)));
    let (cleared, other) = (lp.timers[0], lp.timers[1]);
    lp.on_message(Some(SchedulerMessage::ClearTimer(1)));
    assert_eq!(lp.on_timer(other).actions.len(), 2);
    lp.on_message(Some(SchedulerMessage::ClearTimer(1)));
    assert!(lp.on_timer(cleared).actions.is_empty());
    assert_eq!(lp.timers, vec![other]);
    lp.on_message(Some(SchedulerMessage::ClearTimer(1)));
    lp.on_message(Some(SchedulerMessage::ScheduleTimeout(1, 5)));
    let again = lp.timers[1];
    assert_eq!(lp.on_timer(again).actions.len(), 1);
}
