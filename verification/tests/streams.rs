use bytes::Bytes;
use openworkers_runtime::bindings::ResponseStreamState;
use openworkers_runtime::chunk_channel::{ReceiveAttempt, StreamChunk};
use openworkers_runtime::stream_manager::{
    pump_item, PumpStep, PumpStyle, ReadOutcome, StreamManager, WaitingRead, WaitingWrite,
    WriteOutcome, BUFFER_FULL, CHANNEL_CLOSED, CLOSED_UNEXPECTEDLY, DEFAULT_HIGH_WATER_MARK,
};

fn data(text: &'static str) -> StreamChunk {
    StreamChunk::Data(Bytes::from(text))
}

fn written(outcome: WriteOutcome) -> Result<(), String> {
    match outcome {
        WriteOutcome::Done(r) => r,
        WriteOutcome::Wait(_) => panic!("the write waits"),
    }
}

fn waiting_write(outcome: WriteOutcome) -> WaitingWrite {
    match outcome {
        WriteOutcome::Wait(w) => w,
        WriteOutcome::Done(r) => panic!("the write is done: {:?}", r),
    }
}

fn read(outcome: ReadOutcome) -> Result<StreamChunk, String> {
    match outcome {
        ReadOutcome::Done(r) => r,
        ReadOutcome::Wait(_) => panic!("the read waits"),
    }
}

fn waiting_read(outcome: ReadOutcome) -> WaitingRead {
    match outcome {
        ReadOutcome::Wait(w) => w,
        ReadOutcome::Done(_) => panic!("the read is done"),
    }
}

fn bytes_in(chunk: StreamChunk) -> Bytes {
    match chunk {
        StreamChunk::Data(b) => b,
        _ => panic!("Expected data chunk"),
    }
}

#[test]
fn test_stream_manager_create() {
    let mut manager = StreamManager::new();
    let id = manager.create_stream("https://example.com".to_string());

    assert_eq!(id, 1);
    assert_eq!(manager.active_count(), 1);

    written(manager.write_chunk(id, StreamChunk::Data(Bytes::from("test")))).unwrap();

    let chunk = read(manager.read_chunk(id)).unwrap();
    match chunk {
        StreamChunk::Data(data) => assert_eq!(data, Bytes::from("test")),
        _ => panic!("Expected data chunk"),
    }
}

#[test]
fn test_stream_manager_multiple_chunks() {
    let mut manager = StreamManager::new();
    let id = manager.create_stream("https://example.com".to_string());

    written(manager.write_chunk(id, StreamChunk::Data(Bytes::from("chunk1")))).unwrap();
    written(manager.write_chunk(id, StreamChunk::Data(Bytes::from("chunk2")))).unwrap();
    written(manager.write_chunk(id, StreamChunk::Done)).unwrap();

    let chunk1 = read(manager.read_chunk(id)).unwrap();
    let chunk2 = read(manager.read_chunk(id)).unwrap();
    let done = read(manager.read_chunk(id)).unwrap();

    match (chunk1, chunk2, done) {
        (StreamChunk::Data(d1), StreamChunk::Data(d2), StreamChunk::Done) => {
            assert_eq!(d1, Bytes::from("chunk1"));
            assert_eq!(d2, Bytes::from("chunk2"));
        }
        _ => panic!("Expected data chunks + done"),
    }
}

#[test]
fn test_stream_manager_close() {
    let mut manager = StreamManager::new();
    let id = manager.create_stream("https://example.com".to_string());

    assert_eq!(manager.active_count(), 1);

    manager.close_stream(id);

    assert_eq!(manager.active_count(), 0);
}

#[test]
fn test_stream_info() {
    let mut manager = StreamManager::new();
    let id = manager.create_stream("https://api.example.com/data".to_string());

    assert_eq!(
        manager.get_stream_info(id),
        Some("https://api.example.com/data".to_string())
    );
}

#[test]
fn test_backpressure() {
    let mut manager = StreamManager::with_high_water_mark(2);
    let id = manager.create_stream("https://example.com".to_string());

    written(manager.write_chunk(id, StreamChunk::Data(Bytes::from("1")))).unwrap();
    written(manager.write_chunk(id, StreamChunk::Data(Bytes::from("2")))).unwrap();

    let result = manager.try_write_chunk(id, StreamChunk::Data(Bytes::from("3")));
    assert!(result.is_err());
    assert!(result.unwrap_err().contains("backpressure"));

    let _ = read(manager.read_chunk(id)).unwrap();

    let result = manager.try_write_chunk(id, StreamChunk::Data(Bytes::from("3")));
    assert!(result.is_ok());
}

#[test]
fn a_manager_buffers_sixteen_chunks_unless_told_otherwise() {
    assert_eq!(DEFAULT_HIGH_WATER_MARK, 16);
    let mut manager = StreamManager::default();
    let id = manager.create_stream("u".to_string());
    for _ in 0..16 {
        assert_eq!(manager.try_write_chunk(id, data("x")), Ok(()));
    }
    assert_eq!(manager.try_write_chunk(id, data("x")), Err(BUFFER_FULL.to_string()));
}

#[test]
fn streams_have_numbers_of_their_own() {
    let mut manager = StreamManager::new();
    assert_eq!(manager.create_stream("a".to_string()), 1);
    assert_eq!(manager.create_stream("b".to_string()), 2);
    assert_eq!(manager.get_stream_info(1), Some("a".to_string()));
    assert_eq!(manager.get_stream_info(2), Some("b".to_string()));
    assert_eq!(manager.get_stream_info(3), None);
    assert_eq!(manager.active_count(), 2);
}

#[test]
fn streams_do_not_mix_their_chunks() {
    let mut manager = StreamManager::new();
    let a = manager.create_stream("a".to_string());
    let b = manager.create_stream("b".to_string());
    manager.try_write_chunk(a, data("for a")).unwrap();
    manager.try_write_chunk(b, data("for b")).unwrap();
    assert_eq!(bytes_in(read(manager.read_chunk(b)).unwrap()), Bytes::from("for b"));
    assert_eq!(bytes_in(read(manager.read_chunk(a)).unwrap()), Bytes::from("for a"));
}

#[test]
fn an_unknown_stream_is_not_found() {
    let mut manager = StreamManager::new();
    assert_eq!(
        manager.try_write_chunk(7, data("x")),
        Err("Stream 7 not found".to_string())
    );
    assert_eq!(written(manager.write_chunk(7, data("x"))), Err("Stream 7 not found".to_string()));
    assert_eq!(
        read(manager.read_chunk(7)).unwrap_err(),
        "Stream 7 not found or already being read".to_string()
    );
    assert!(!manager.has_sender(7));
    assert!(manager.take_receiver(7).is_none());
}

#[test]
fn a_write_waits_for_room_and_goes_on_when_there_is() {
    let mut manager = StreamManager::with_high_water_mark(1);
    let id = manager.create_stream("u".to_string());
    written(manager.write_chunk(id, data("1"))).unwrap();
    let waiting = waiting_write(manager.write_chunk(id, data("2")));
    let waiting = waiting_write(manager.retry_write(waiting));
    assert_eq!(bytes_in(read(manager.read_chunk(id)).unwrap()), Bytes::from("1"));
    written(manager.retry_write(waiting)).unwrap();
    assert_eq!(bytes_in(read(manager.read_chunk(id)).unwrap()), Bytes::from("2"));
}

#[test]
fn a_read_waits_for_a_chunk_and_goes_on_when_there_is_one() {
    let mut manager = StreamManager::new();
    let id = manager.create_stream("u".to_string());
    let waiting = waiting_read(manager.read_chunk(id));
    let waiting = waiting_read(manager.retry_read(waiting));
    manager.try_write_chunk(id, data("late")).unwrap();
    assert_eq!(bytes_in(read(manager.retry_read(waiting)).unwrap()), Bytes::from("late"));
}

#[test]
fn an_end_closes_the_stream_once_it_is_read() {
    let mut manager = StreamManager::new();
    let id = manager.create_stream("u".to_string());
    manager.try_write_chunk(id, StreamChunk::Done).unwrap();
    assert_eq!(manager.active_count(), 1);
    assert!(matches!(read(manager.read_chunk(id)), Ok(StreamChunk::Done)));
    assert_eq!(manager.try_write_chunk(id, data("x")), Err(CHANNEL_CLOSED.to_string()));
    assert_eq!(manager.active_count(), 0);
    assert!(read(manager.read_chunk(id)).is_err());
}

#[test]
fn an_error_is_read_with_its_message_and_closes_the_stream() {
    let mut manager = StreamManager::new();
    let id = manager.create_stream("u".to_string());
    manager.try_write_chunk(id, StreamChunk::Error("boom".to_string())).unwrap();
    match read(manager.read_chunk(id)) {
        Ok(StreamChunk::Error(m)) => assert_eq!(m, "boom"),
        _ => panic!("Expected an error chunk"),
    }
    assert!(read(manager.read_chunk(id)).is_err());
    assert_eq!(manager.try_write_chunk(id, data("x")), Err(CHANNEL_CLOSED.to_string()));
    assert!(!manager.has_sender(id));
}

#[test]
fn a_receiver_that_is_gone_closes_the_channel() {
    let mut manager = StreamManager::new();
    let id = manager.create_stream("u".to_string());
    manager.try_write_chunk(id, data("kept")).unwrap();
    let receiver = manager.take_receiver(id).unwrap();
    assert!(manager.take_receiver(id).is_none());
    assert!(matches!(manager.receive(&receiver), ReceiveAttempt::Chunk(StreamChunk::Data(_))));
    assert!(matches!(manager.receive(&receiver), ReceiveAttempt::Empty));
    assert!(manager.has_sender(id));
    manager.drop_receiver(receiver);
    assert_eq!(manager.try_write_chunk(id, data("x")), Err(CHANNEL_CLOSED.to_string()));
}

#[test]
fn a_channel_without_writers_ends() {
    let mut manager = StreamManager::new();
    let id = manager.create_stream("u".to_string());
    let receiver = manager.take_receiver(id).unwrap();
    manager.close_stream(id);
    assert!(matches!(manager.receive(&receiver), ReceiveAttempt::Closed));
    assert_eq!(CLOSED_UNEXPECTEDLY, "Stream closed unexpectedly");
}

#[test]
fn a_read_that_waits_learns_that_its_stream_is_closed() {
    let mut manager = StreamManager::new();
    let id = manager.create_stream("u".to_string());
    let waiting = waiting_read(manager.read_chunk(id));
    manager.close_stream(id);
    assert_eq!(
        read(manager.retry_read(waiting)).unwrap_err(),
        CLOSED_UNEXPECTEDLY.to_string()
    );
}

#[test]
fn clearing_leaves_no_stream() {
    let mut manager = StreamManager::new();
    let a = manager.create_stream("a".to_string());
    let b = manager.create_stream("b".to_string());
    manager.clear();
    assert_eq!(manager.active_count(), 0);
    assert!(!manager.has_sender(a));
    assert_eq!(manager.get_stream_info(b), None);
    assert_eq!(manager.create_stream("c".to_string()), 1);
}

#[test]
fn the_body_of_a_request_has_a_stream_of_its_own() {
    let mut manager = StreamManager::new();
    let id = manager.pump_request_body();
    assert_eq!(manager.get_stream_info(id), Some("request_body".to_string()));
}

#[test]
fn a_pump_writes_what_its_source_brings() {
    let (chunk, then, otherwise) =
        pump_item(PumpStyle::Response, Some(Ok(Bytes::from("part"))));
    assert_eq!(bytes_in(chunk), Bytes::from("part"));
    assert_eq!(then, PumpStep::ReadNext);
    assert_ne!(otherwise, PumpStep::ReadNext);

    let (chunk, then, _) = pump_item(PumpStyle::Response, Some(Err("broken".to_string())));
    assert!(matches!(chunk, StreamChunk::Error(m) if m == "broken"));
    assert_eq!(then, PumpStep::Stop);

    let (chunk, then, _) = pump_item(PumpStyle::RequestBody, None);
    assert!(matches!(chunk, StreamChunk::Done));
    assert_eq!(then, PumpStep::Stop);
}

#[test]
fn a_script_streams_its_response() {
    let mut state = ResponseStreamState { manager: StreamManager::with_high_water_mark(1) };
    let id = state.response_stream_create();
    assert!(!state.response_stream_is_closed(id));
    assert!(state.response_stream_write(id, vec![1, 2, 3]));
    assert!(!state.response_stream_write(id, vec![4]));
    let chunk = read(state.manager.read_chunk(id)).unwrap();
    assert_eq!(bytes_in(chunk), Bytes::from(vec![1u8, 2, 3]));
    state.response_stream_end(id);
    assert!(state.response_stream_is_closed(99));
}

#[test]
fn reads_follow_writes_however_they_alternate() {
    let mut manager = StreamManager::with_high_water_mark(1);
    let id = manager.create_stream("s".to_string());
    let other = manager.create_stream("o".to_string());
    let early = waiting_read(manager.read_chunk(id));
    assert!(read(manager.read_chunk(id)).is_err());
    written(manager.write_chunk(id, data("a"))).unwrap();
    written(manager.write_chunk(other, data("x"))).unwrap();
    let late = waiting_write(manager.write_chunk(id, data("b")));
    assert_eq!(manager.try_write_chunk(id, data("lost")), Err(BUFFER_FULL.to_string()));
    assert_eq!(bytes_in(read(manager.retry_read(early)).unwrap()), Bytes::from("a"));
    written(manager.retry_write(late)).unwrap();
    let end = waiting_write(manager.write_chunk(id, StreamChunk::Done));
    manager.close_stream(other);
    assert_eq!(bytes_in(read(manager.read_chunk(id)).unwrap()), Bytes::from("b"));
    written(manager.retry_write(end)).unwrap();
    assert!(matches!(read(manager.read_chunk(id)), Ok(StreamChunk::Done)));
    assert_eq!(
        read(manager.read_chunk(id)).err(),
        Some(format!("Stream {} not found or already being read", id))
    );
}

#[test]
fn streams_are_numbered_from_one() {
    let mut manager = StreamManager::new();
    assert_eq!(manager.create_stream("a".to_string()), 1);
    manager.close_stream(1);
    assert_eq!(manager.create_stream("b".to_string()), 2);
    let _ = manager.read_chunk(2);
    assert_eq!(manager.create_stream("c".to_string()), 3);
    assert_eq!(manager.active_count(), 2);
    manager.clear();
    assert_eq!(manager.create_stream("d".to_string()), 1);
}
