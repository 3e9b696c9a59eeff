use std::collections::HashMap;

use bytes::Bytes;
use openworkers_runtime::callback_handlers::{FieldValue, ResultObject};
use openworkers_runtime::env::{
    env_code, setup_env, setup_snapshot_env, snapshot_env_code, BindingInfo, BindingType,
};
use openworkers_runtime::evaluation::WorkerCode;
use openworkers_runtime::events::{
    after_task_call, payload_text, pooled_task, read_task_result, take_streamed_body, task_call,
    EngineKind, FetchPhase, PooledEvent, PooledRun, TaskHandler, TaskObject,
};
use openworkers_runtime::fetch::HttpMethod;
use openworkers_runtime::http_client::{
    begin_response, collect_headers, plan_request, request_failed,
};
use openworkers_runtime::limits::{RuntimeLimits, TerminationReason};
use openworkers_runtime::operations::{HttpRequest, RequestBody};
use openworkers_runtime::stream_manager::StreamManager;
use openworkers_runtime::task::{
    sent_status, HttpRequest as ReceivedRequest, HttpResponse, ResponseBody, Task, TaskType,
    RESPONSE_STREAM_BUFFER_SIZE,
};
use openworkers_runtime::worker::{
    is_terminated, Event, FetchInit, Script, SetupPhase, Started, TaskInit, TaskSource, Worker,
    WorkerBuilder,
};
use openworkers_runtime::worker_future::{
    base_exit, poll_step, AbortConfig, EventLoopExit, ExitDecision, Observation, PollInput,
    PollStep, WorkerFuture,
};
use serde_json::Value;
use tokio::sync::oneshot;

fn script() -> Script {
    Script { code: WorkerCode::JavaScript("1".to_string()), env: None, bindings: vec![] }
}

fn limits() -> RuntimeLimits {
    RuntimeLimits {
        heap_initial_mb: 1,
        heap_max_mb: 64,
        max_cpu_time_ms: 50,
        max_wall_clock_time_ms: 1000,
        stream_buffer_size: 16,
    }
}

fn request(method: HttpMethod, body: RequestBody) -> HttpRequest {
    HttpRequest {
        url: "https://x/".to_string(),
        method,
        headers: vec![("a".to_string(), "b".to_string())],
        body,
    }
}

fn task(payload: Option<Value>, source: Option<TaskSource>) -> TaskInit {
    let (res_tx, _rx) = oneshot::channel();
    TaskInit { task_id: "t1".to_string(), attempt: 2, payload, source, res_tx }
}

fn names(object: &ResultObject) -> Vec<&'static str> {
    object.fields.iter().map(|f| f.name).collect()
}

fn reason_text<T>(r: Result<T, TerminationReason>) -> String {
    match r {
        Err(e) => format!("{:?}", e),
        Ok(_) => panic!("Expected a reason"),
    }
}

#[test]
fn a_worker_needs_a_script_and_operations() {
    let empty: WorkerBuilder<u8> = WorkerBuilder::default();
    assert_eq!(reason_text(empty.build()), "InitializationError(\"Script is required\")");
    let half: WorkerBuilder<u8> = WorkerBuilder::new().script(script());
    assert_eq!(
        reason_text(half.build()),
        "InitializationError(\"Operations handle is required\")"
    );
    let parts = Worker::builder().script(script()).ops(7u8).limits(limits()).build();
    let parts = parts.ok().unwrap();
    assert_eq!(parts.ops, 7);
    assert_eq!(parts.limits, Some(limits()));
}

#[test]
fn a_setup_that_fails_says_where() {
    let fail = |phase: SetupPhase| reason_text(phase.next(Err("e".to_string())));
    assert_eq!(
        fail(SetupPhase::EventListener),
        "InitializationError(\"Failed to setup addEventListener: e\")"
    );
    assert_eq!(fail(SetupPhase::Env), "InitializationError(\"Failed to setup env: e\")");
    assert_eq!(fail(SetupPhase::Evaluate), "Exception(\"Script evaluation failed: e\")");
    assert_eq!(
        fail(SetupPhase::EsModules),
        "InitializationError(\"Failed to setup ES modules handler: e\")"
    );
    assert_eq!(SetupPhase::EsModules.next(Ok(())).ok(), Some(SetupPhase::Ready));
}

#[test]
fn an_event_is_handled_once() {
    let worker = Worker::new();
    let mut event = Event::Task(Some(task(None, None)));
    assert!(matches!(worker.exec(&mut event), Ok(Started::Task(t)) if t.task_id == "t1"));
    assert_eq!(reason_text(worker.exec(&mut event)), "Other(\"TaskInit already consumed\")");
    let (res_tx, _rx) = oneshot::channel();
    let req = request(HttpMethod::Get, RequestBody::Empty);
    let mut event = Event::Fetch(Some(FetchInit { req, res_tx }));
    assert!(matches!(worker.exec(&mut event), Ok(Started::Fetch(f)) if f.req.url == "https://x/"));
    assert_eq!(reason_text(worker.exec(&mut event)), "Other(\"FetchInit already consumed\")");
}

#[test]
fn an_aborted_worker_handles_nothing() {
    let mut worker = Worker::new();
    worker.abort();
    let mut event = Event::Task(Some(task(None, None)));
    assert_eq!(reason_text(worker.exec(&mut event)), "Aborted");
    assert!(matches!(event, Event::Task(Some(_))));
}

#[test]
fn the_most_specific_reason_comes_first() {
    let mut worker = Worker { aborted: true, memory_limit_hit: true };
    let mut why = |cpu, wall| reason_text(worker.check_termination_reason(Ok(()), cpu, wall));
    assert_eq!(why(true, true), "CpuTimeLimit");
    assert_eq!(why(false, true), "WallClockTimeout");
    assert_eq!(why(false, false), "MemoryLimit");
    worker.memory_limit_hit = false;
    assert_eq!(
        reason_text(worker.check_termination_reason(Err("x".to_string()), false, false)),
        "Aborted"
    );
    worker.aborted = false;
    assert_eq!(
        reason_text(worker.check_termination_reason(Err("x".to_string()), false, false)),
        "Exception(\"x\")"
    );
    let looped = Err("Max event loop iterations (1000) reached".to_string());
    assert_eq!(
        reason_text(worker.check_termination_reason(looped, false, false)),
        "MaxIterationsReached"
    );
    assert!(worker.check_termination_reason(Ok(()), false, false).is_ok());
    assert!(is_terminated(false, true, false));
    assert!(!is_terminated(false, false, false));
}

#[test]
fn a_poll_goes_through_its_steps() {
    assert!(matches!(
        poll_step(PollInput::Begin(true)),
        PollStep::Ready(Err(e)) if e == "Execution terminated"
    ));
    assert!(matches!(poll_step(PollInput::Begin(false)), PollStep::Drain));
    assert!(matches!(
        poll_step(PollInput::Drained(Err("closed".to_string()))),
        PollStep::Ready(Err(e)) if e == "closed"
    ));
    assert!(matches!(poll_step(PollInput::Drained(Ok(()))), PollStep::Check));
    assert!(matches!(poll_step(PollInput::Checked(true)), PollStep::Ready(Ok(()))));
    assert!(matches!(poll_step(PollInput::Checked(false)), PollStep::Pending));
}

#[test]
fn a_client_that_goes_away_is_signalled_once_and_given_up_after_a_while() {
    let mut streams = StreamManager::new();
    let id = streams.create_stream("response".to_string());
    let config = AbortConfig { grace_period: 100 };
    let mut future = WorkerFuture::new(EventLoopExit::FullyComplete, Some(config));
    let seen = Observation {
        base_exit: false,
        request_complete: true,
        active_streams: 1,
        response_stream: Some(id),
    };
    let nothing = ExitDecision { signal_disconnect: false, exit: false };
    assert_eq!(future.check_exit_with_abort(seen, &streams, 10), nothing);
    streams.close_stream(id);
    assert_eq!(
        future.check_exit_with_abort(seen, &streams, 20),
        ExitDecision { signal_disconnect: true, exit: false }
    );
    assert_eq!(future.check_exit_with_abort(seen, &streams, 120), nothing);
    let busy = Observation { request_complete: false, ..seen };
    assert_eq!(future.check_exit_with_abort(busy, &streams, 500), nothing);
    assert_eq!(
        future.check_exit_with_abort(seen, &streams, 121),
        ExitDecision { signal_disconnect: false, exit: true }
    );
}

#[test]
fn without_a_configuration_only_the_condition_counts() {
    let streams = StreamManager::new();
    let mut future = WorkerFuture::new(EventLoopExit::ResponseReady, None);
    let seen = Observation {
        base_exit: false,
        request_complete: true,
        active_streams: 1,
        response_stream: Some(1),
    };
    assert!(!future.check_exit_with_abort(seen, &streams, 1).exit);
    let seen = Observation { base_exit: true, ..seen };
    assert!(future.check_exit_with_abort(seen, &streams, 1).exit);
    assert_eq!(future.abort_signaled_at, None);
}

#[test]
fn a_task_is_handed_to_its_handler() {
    let init = task(Some(Value::from("p")), Some(TaskSource::Schedule { time: 5 }));
    assert_eq!(payload_text(&init), Some("\"p\"".to_string()));
    let call = task_call(&init, true, true, Some(8), EngineKind::Owned).unwrap();
    assert_eq!(call.handler, TaskHandler::Task);
    assert_eq!(names(&call.event), vec!["taskId", "attempt", "payload", "scheduledTime"]);
    assert!(matches!(&call.event.fields[0].value, FieldValue::Text(t) if t == "t1"));
    assert!(matches!(call.event.fields[1].value, FieldValue::Number(2)));
    assert!(matches!(call.event.fields[2].value, FieldValue::Parsed(8)));
    assert!(matches!(call.event.fields[3].value, FieldValue::Number(5)));
    let call = task_call(&init, true, false, None, EngineKind::Pooled).unwrap();
    assert_eq!(names(&call.event), vec!["taskId", "scheduledTime"]);
    let call = task_call(&init, false, true, Some(8), EngineKind::Owned).unwrap();
    assert_eq!(call.handler, TaskHandler::Scheduled);
    assert_eq!(names(&call.event), vec!["scheduledTime"]);
    assert!(task_call(&init, false, false, None, EngineKind::Owned).is_none());
    let plain = task(None, Some(TaskSource::Other));
    assert_eq!(payload_text(&plain), None);
    let call = task_call(&plain, false, true, None, EngineKind::Owned).unwrap();
    assert!(call.event.fields.is_empty());
}

#[test]
fn a_call_that_does_not_come_back_was_terminated() {
    assert_eq!(
        after_task_call(Some(false), EngineKind::Owned),
        Err("Execution terminated".to_string())
    );
    assert_eq!(after_task_call(Some(false), EngineKind::Pooled), Ok(()));
    assert_eq!(after_task_call(Some(true), EngineKind::Owned), Ok(()));
    assert_eq!(after_task_call(None, EngineKind::Owned), Ok(()));
}

#[test]
fn the_result_of_a_task_is_read() {
    let result = read_task_result(None);
    assert!(result.success && result.data.is_none() && result.error.is_none());
    let result = read_task_result(Some(TaskObject {
        success: Some(false),
        data: Some("{\"n\": [1, 2]}".to_string()),
        error: Some("why".to_string()),
    }));
    assert!(!result.success);
    assert_eq!(result.data.unwrap().to_string(), "{\"n\":[1,2]}");
    assert_eq!(result.error, Some("why".to_string()));
    let result = read_task_result(Some(TaskObject {
        success: None,
        data: Some("{".to_string()),
        error: None,
    }));
    assert!(result.success && result.data.is_none());
}

#[test]
fn a_streamed_body_is_taken_out_of_a_request() {
    let mut streams = StreamManager::new();
    let (_tx, rx) = tokio::sync::mpsc::channel(1);
    let mut req = request(HttpMethod::Post, RequestBody::Stream(rx));
    let (id, _rx) = take_streamed_body(&mut req, &mut streams).unwrap();
    assert_eq!(streams.get_stream_info(id), Some("request_body".to_string()));
    assert!(matches!(req.body, RequestBody::Empty));
    let mut req = request(HttpMethod::Post, RequestBody::Bytes(Bytes::from("b")));
    assert!(take_streamed_body(&mut req, &mut streams).is_none());
    assert!(matches!(req.body, RequestBody::Bytes(_)));
}

#[test]
fn a_request_goes_through_its_phases() {
    let phase = FetchPhase::Trigger;
    assert_eq!(phase.waits_for(), None);
    let phase = phase.next(Ok(0));
    assert_eq!(phase.waits_for(), Some((EventLoopExit::ResponseReady, false)));
    let phase = phase.next(Ok(0)).next(Ok(418));
    assert_eq!(phase.waits_for(), Some((EventLoopExit::FullyComplete, true)));
    assert!(matches!(phase.next(Ok(0)), FetchPhase::Finished(Ok(418))));
    let failed = FetchPhase::AwaitResponse.next(Err("x".to_string())).next(Ok(1));
    assert!(matches!(failed, FetchPhase::Finished(Err(e)) if e == "x"));
}

#[test]
fn a_pooled_run_delivers_a_task_that_is_done_in_time() {
    let mut run = PooledRun::new();
    for _ in 0..4 {
        run = run.next(PooledEvent::SetUp(Ok(())));
    }
    run = run.next(PooledEvent::Handed);
    for _ in 0..99 {
        run = run.next(PooledEvent::Looked(false));
    }
    run = run.next(PooledEvent::Looked(true));
    assert!(matches!(run, PooledRun::Deliver));
    assert!(matches!(run.next(PooledEvent::Sent), PooledRun::Finished(Ok(()))));
}

#[test]
fn a_pooled_run_leaves_a_task_that_is_late() {
    let mut run = PooledRun::Hand.next(PooledEvent::Handed);
    for _ in 0..100 {
        assert!(matches!(run, PooledRun::Look(_)));
        run = run.next(PooledEvent::Looked(false));
    }
    assert!(matches!(run, PooledRun::Finished(Ok(()))));
    let failed = PooledRun::new().next(PooledEvent::SetUp(Err("x".to_string())));
    assert!(matches!(
        failed,
        PooledRun::Finished(Err(TerminationReason::InitializationError(_)))
    ));
    let refused = PooledRun::Hand.next(PooledEvent::Refused(TerminationReason::Aborted));
    assert!(matches!(refused, PooledRun::Finished(Err(TerminationReason::Aborted))));
}

#[test]
fn a_pooled_engine_handles_tasks_only() {
    assert!(pooled_task(Event::Task(Some(task(None, None)))).is_ok());
    assert_eq!(
        reason_text(pooled_task(Event::Task(None))),
        "Other(\"TaskInit already consumed\")"
    );
    assert_eq!(
        reason_text(pooled_task(Event::Fetch(None))),
        "Other(\"Fetch not yet implemented for pooled mode\")"
    );
}

#[test]
fn the_environment_is_defined_by_a_script() {
    assert_eq!(
        env_code("{}", &vec![]),
        "Object.defineProperty(globalThis, 'env', {\n            value: \
         Object.freeze(Object.assign({})),\n            writable: false,\n            \
         enumerable: true,\n            configurable: false\n        });"
    );
    assert_eq!(setup_env(&None, &vec![]), env_code("{}", &vec![]));
    let two = env_code("{}", &vec!["A: 1".to_string(), "B: 2".to_string()]);
    assert!(two.contains("Object.assign({}, {A: 1,B: 2})"));
    let env = HashMap::from([("KEY".to_string(), "a \"quote\"".to_string())]);
    let code = setup_env(&Some(env.clone()), &vec![]);
    assert!(code.contains("Object.assign({\"KEY\":\"a \\\"quote\\\"\"})"));
    let snapshot = setup_snapshot_env(&env);
    assert_eq!(snapshot, snapshot_env_code("{\"KEY\":\"a \\\"quote\\\"\"}"));
    assert!(snapshot.contains("configurable: true"));
}

#[test]
fn every_variable_is_in_the_environment_once() {
    let none = HashMap::new();
    assert_eq!(setup_snapshot_env(&none), snapshot_env_code("{}"));
    assert_eq!(setup_env(&Some(none), &vec![]), env_code("{}", &vec![]));
    let two = HashMap::from([
        ("A".to_string(), "1".to_string()),
        ("B".to_string(), "x\ny".to_string()),
    ]);
    let orders = ["{\"A\":\"1\",\"B\":\"x\\ny\"}", "{\"B\":\"x\\ny\",\"A\":\"1\"}"];
    let code = setup_env(&Some(two), &vec![]);
    assert!(orders.iter().any(|text| code == env_code(text, &vec![])));
}

#[test]
fn bindings_are_defined_by_their_kind() {
    let binding = |kind| {
        setup_env(&None, &vec![BindingInfo { name: "MY\"B".to_string(), binding_type: kind }])
    };
    let code = binding(BindingType::Assets);
    assert!(code.contains("{\"MY\\\"B\": {"));
    assert!(code.contains("__nativeBindingFetch(\"MY\\\"B\", fetchOptions"));
    let code = binding(BindingType::Storage);
    for op in ["get", "put", "head", "list", "delete", "fetch"] {
        let call = format!("__bindingCall(__nativeBindingStorage, \"MY\\\"B\", '{}', {{", op);
        assert!(code.contains(&call));
    }
    let code = binding(BindingType::Kv);
    assert!(code.contains("const __n = \"MY\\\"B\";"));
    assert!(code.contains("__bindingCall(__nativeBindingKv, __n, 'get', { key })"));
    let code = binding(BindingType::Database);
    assert!(code.contains("__nativeBindingDatabase, __n, 'query', { sql, params: params || [] }"));
    let code = binding(BindingType::Worker);
    assert!(code.contains("__nativeBindingWorker(\"MY\\\"B\", fetchOptions"));
}

#[test]
fn a_request_is_planned_for_the_client_of_the_host() {
    let plan = plan_request(request(HttpMethod::Put, RequestBody::Bytes(Bytes::from("b"))));
    let plan = plan.ok().unwrap();
    assert_eq!(plan.method, HttpMethod::Put);
    assert_eq!(plan.url, "https://x/");
    assert_eq!(plan.headers.len(), 1);
    assert_eq!(plan.body, Some(Bytes::from("b")));
    assert_eq!(
        plan_request(request(HttpMethod::Options, RequestBody::Empty)).err(),
        Some("OPTIONS method not yet supported".to_string())
    );
    assert_eq!(request_failed("timeout"), "Request failed: timeout");
}

#[test]
fn the_head_of_a_response_is_taken_in() {
    let mut streams = StreamManager::new();
    let headers = vec![
        ("a".to_string(), Some("1".to_string())),
        ("b".to_string(), None),
        ("a".to_string(), Some("2".to_string())),
    ];
    let expected = vec![("a".to_string(), "2".to_string())];
    assert_eq!(collect_headers(headers.clone()), expected);
    let (meta, id) =
        begin_response(&mut streams, "https://x/".to_string(), 299, None, headers);
    assert_eq!((meta.status, meta.status_text.as_str()), (299, ""));
    assert_eq!(meta.headers, expected);
    assert_eq!(streams.get_stream_info(id), Some("https://x/".to_string()));
}

#[test]
fn a_received_request_is_put_together() {
    let headers = vec![("h".to_string(), Some("v".to_string()))];
    let req = ReceivedRequest::from_actix(
        "GET".to_string(),
        "https",
        "example.com",
        "/p?q",
        headers,
        Bytes::new(),
    );
    assert_eq!(req.url, "https://example.com/p?q");
    assert_eq!(req.method, "GET");
    assert_eq!(req.body, None);
    let req = ReceivedRequest::from_actix(
        "POST".to_string(),
        "http",
        "h",
        "/",
        vec![],
        Bytes::from("x"),
    );
    assert_eq!(req.body, Some(Bytes::from("x")));
}

#[test]
fn a_response_body_is_described() {
    let bytes = ResponseBody::Bytes(Bytes::from("abc"));
    assert_eq!(bytes.debug_text(), "Bytes(3 bytes)");
    assert_eq!(bytes.as_bytes(), Some(&Bytes::from("abc")));
    assert!(bytes.is_sent() && !bytes.is_none() && !bytes.is_stream());
    assert_eq!(ResponseBody::Empty.debug_text(), "None");
    assert!(!ResponseBody::Empty.is_sent() && ResponseBody::Empty.is_none());
    assert!(!ResponseBody::Bytes(Bytes::new()).is_sent());
    let (_tx, rx) = tokio::sync::mpsc::channel(RESPONSE_STREAM_BUFFER_SIZE);
    let stream = ResponseBody::Stream(rx);
    assert_eq!(stream.debug_text(), "Stream(...)");
    assert!(stream.is_stream() && stream.is_sent() && stream.as_bytes().is_none());
    assert_eq!(sent_status(404), 404);
    assert_eq!(sent_status(99), 500);
    assert_eq!(sent_status(1000), 500);
}

#[test]
fn a_task_carries_the_end_that_is_listened_at() {
    let req = ReceivedRequest {
        method: "GET".to_string(),
        url: "u".to_string(),
        headers: vec![],
        body: None,
    };
    let (task, mut rx) = Task::fetch(req);
    assert_eq!(task.task_type(), TaskType::Fetch);
    match task {
        Task::Fetch(Some(init)) => {
            assert_eq!(init.req.url, "u");
            let response = HttpResponse { status: 200, headers: vec![], body: ResponseBody::Empty };
            assert!(init.res_tx.send(response).is_ok());
        }
        _ => panic!("Expected a request"),
    }
    assert_eq!(rx.try_recv().ok().unwrap().status, 200);
    let (task, mut rx) = Task::scheduled(77);
    assert_eq!(task.task_type(), TaskType::Scheduled);
    match task {
        Task::Scheduled(Some(init)) => {
            assert_eq!(init.time, 77);
            assert!(init.res_tx.send(()).is_ok());
        }
        _ => panic!("Expected a scheduled run"),
    }
    assert_eq!(rx.try_recv(), Ok(()));
}

#[test]
fn a_loop_is_left_when_what_it_waits_for_is_there() {
    assert!(base_exit(EventLoopExit::ResponseReady, true, false, 3));
    assert!(!base_exit(EventLoopExit::ResponseReady, false, true, 0));
    assert!(base_exit(EventLoopExit::HandlerComplete, false, true, 3));
    assert!(!base_exit(EventLoopExit::HandlerComplete, true, false, 0));
    assert!(base_exit(EventLoopExit::StreamsComplete, false, false, 0));
    assert!(!base_exit(EventLoopExit::StreamsComplete, true, true, 1));
    assert!(base_exit(EventLoopExit::FullyComplete, false, true, 0));
    assert!(!base_exit(EventLoopExit::FullyComplete, true, true, 1));
    assert!(!base_exit(EventLoopExit::FullyComplete, true, false, 0));
}
