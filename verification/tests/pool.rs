use openworkers_runtime::limits::{RuntimeLimits, TerminationReason};
use openworkers_runtime::thread_pinned_pool::{
    acquire_from_local_pool, after_wait, ensure_pool_initialized, get_local_pool_stats,
    init_pinned_pool, init_pinned_pool_full, init_pinned_pool_with_owner_limit, leave_queue,
    next_step, release_to_local_pool, try_enter_queue, LocalPoolStats, PinnedPoolConfig,
    PinnedPoolCounters, PinnedStep, TaggedIsolate, ThreadLocalPool, WaitOutcome,
    DEFAULT_QUEUE_SIZE, DEFAULT_QUEUE_TIMEOUT_MS, QUEUE_FULL_ERROR, QUEUE_INTERNAL_ERROR,
    QUEUE_TIMEOUT_ERROR,
};

fn limits() -> RuntimeLimits {
    RuntimeLimits {
        heap_initial_mb: 1,
        heap_max_mb: 64,
        max_cpu_time_ms: 50,
        max_wall_clock_time_ms: 1000,
        stream_buffer_size: 16,
    }
}

fn message(reason: TerminationReason) -> String {
    match reason {
        TerminationReason::Other(m) => m,
        other => panic!("unexpected reason: {:?}", other),
    }
}

#[test]
fn test_tagged_isolate_acquire_release() {
    let mut isolate_meta = TaggedIsolate::new(0, "test_owner".to_string(), 0);

    assert!(isolate_meta.is_free());

    assert!(isolate_meta.try_acquire());
    assert!(!isolate_meta.is_free());

    assert!(!isolate_meta.try_acquire());

    isolate_meta.release();
    assert!(isolate_meta.is_free());

    assert!(isolate_meta.try_acquire());
}

#[test]
fn a_pool_is_configured_once() {
    let mut slot: Option<PinnedPoolConfig> = None;
    assert!(init_pinned_pool(&mut slot, 4, limits()));
    let config = slot.unwrap();
    assert_eq!(config.max_per_thread, 4);
    assert_eq!(config.max_per_owner, None);
    assert_eq!(config.queue_size, DEFAULT_QUEUE_SIZE);
    assert_eq!(config.queue_timeout_ms, DEFAULT_QUEUE_TIMEOUT_MS);
    assert!(!init_pinned_pool_with_owner_limit(&mut slot, 9, Some(1), limits()));
    assert!(!init_pinned_pool_full(&mut slot, 9, Some(1), 1, 1, limits()));
    assert_eq!(slot, Some(config));

    let mut slot: Option<PinnedPoolConfig> = None;
    assert!(init_pinned_pool_full(&mut slot, 2, Some(1), 3, 70, limits()));
    let config = slot.unwrap();
    assert_eq!((config.queue_size, config.queue_timeout_ms), (3, 70));
    assert_eq!(config.max_per_owner, Some(1));
}

#[test]
fn an_owner_gets_its_own_isolate_back() {
    let mut pool = ThreadLocalPool::new(2, None, 10);
    let first = pool.acquire("a", 1).unwrap();
    assert!(!first.cache_hit);
    pool.begin_request(first.isolate, 1);
    pool.finish_request(first.isolate);
    let again = pool.acquire("a", 2).unwrap();
    assert!(again.cache_hit);
    assert_eq!(again.isolate, first.isolate);
    assert_eq!(again.evicted, None);
}

#[test]
fn owners_do_not_share_isolates() {
    let mut pool = ThreadLocalPool::new(2, None, 10);
    let a = pool.acquire("a", 1).unwrap();
    pool.begin_request(a.isolate, 1);
    pool.finish_request(a.isolate);
    let b = pool.acquire("b", 2).unwrap();
    assert!(!b.cache_hit);
    assert_ne!(a.isolate, b.isolate);
    assert_eq!(pool.stats(), LocalPoolStats { total: 2, in_use: 1, capacity: 2 });
}

#[test]
fn the_isolate_that_was_idle_longest_makes_room() {
    let mut pool = ThreadLocalPool::new(2, None, 10);
    let a = pool.acquire("a", 1).unwrap();
    pool.begin_request(a.isolate, 1);
    let b = pool.acquire("b", 2).unwrap();
    pool.begin_request(b.isolate, 2);
    pool.finish_request(a.isolate);
    pool.finish_request(b.isolate);
    let c = pool.acquire("c", 3).unwrap();
    assert!(!c.cache_hit);
    assert_eq!(c.evicted, Some("a".to_string()));
    assert_eq!(c.evicted_isolate, Some(a.isolate));
    assert_eq!(pool.stats().total, 2);
}

#[test]
fn an_owner_is_held_to_its_limit() {
    let mut pool = ThreadLocalPool::new(4, Some(1), 10);
    let a = pool.acquire("a", 1).unwrap();
    pool.begin_request(a.isolate, 1);
    assert_eq!(pool.count_for_owner("a"), 1);
    assert!(pool.owner_at_limit("a"));
    assert!(pool.acquire("a", 2).is_none());
    assert!(pool.acquire("b", 2).is_some());
}

#[test]
fn a_full_pool_overcommits_and_is_cut_back() {
    let mut pool = ThreadLocalPool::new(1, None, 10);
    let a = pool.acquire("a", 1).unwrap();
    pool.begin_request(a.isolate, 1);
    let b = pool.acquire("b", 2).unwrap();
    assert!(!b.cache_hit);
    pool.begin_request(b.isolate, 2);
    assert_eq!(pool.stats(), LocalPoolStats { total: 2, in_use: 2, capacity: 1 });
    pool.cleanup_overlimit();
    assert_eq!(pool.stats().total, 2);
    pool.finish_request(b.isolate);
    pool.cleanup_overlimit();
    assert_eq!(pool.stats(), LocalPoolStats { total: 1, in_use: 1, capacity: 1 });
}

#[test]
fn the_queue_has_room_for_so_many() {
    let config = PinnedPoolConfig {
        max_per_thread: 1,
        max_per_owner: Some(1),
        queue_size: 2,
        queue_timeout_ms: 100,
        limits: limits(),
    };
    let mut slot: Option<ThreadLocalPool> = None;
    assert_eq!(get_local_pool_stats(&slot), None);
    ensure_pool_initialized(&mut slot, &config);
    assert!(try_enter_queue(&mut slot));
    assert!(try_enter_queue(&mut slot));
    assert!(!try_enter_queue(&mut slot));
    leave_queue(&mut slot);
    assert!(try_enter_queue(&mut slot));
    assert_eq!(
        get_local_pool_stats(&slot),
        Some(LocalPoolStats { total: 0, in_use: 0, capacity: 1 })
    );
    let a = acquire_from_local_pool(&mut slot, "a", 1).unwrap();
    assert!(acquire_from_local_pool(&mut slot, "a", 1).is_none());
    assert!(release_to_local_pool(&mut slot, a.isolate));
}

#[test]
fn a_request_waits_its_turn() {
    let mut pool = ThreadLocalPool::new(1, Some(1), 1);
    let a = match next_step(&mut pool, "a", 1, 0, 100) {
        PinnedStep::Run(a) => a,
        _ => panic!("Expected an isolate"),
    };
    pool.begin_request(a.isolate, 1);
    match next_step(&mut pool, "a", 2, 1_000_000, 100) {
        PinnedStep::Wait(ns) => assert_eq!(ns, 99_000_000),
        _ => panic!("Expected to wait"),
    }
    match next_step(&mut pool, "a", 2, 0, 100) {
        PinnedStep::Fail(reason) => assert_eq!(message(reason), QUEUE_FULL_ERROR),
        _ => panic!("Expected a full queue"),
    }
    assert!(after_wait(&mut pool, WaitOutcome::Woken).is_none());
    assert_eq!(pool.current_waiters, 0);
    match next_step(&mut pool, "a", 3, 100_000_000, 100) {
        PinnedStep::Fail(reason) => assert_eq!(message(reason), QUEUE_TIMEOUT_ERROR),
        _ => panic!("Expected a timeout"),
    }
    let timed_out = after_wait(&mut pool, WaitOutcome::TimedOut).unwrap();
    assert_eq!(message(timed_out), QUEUE_TIMEOUT_ERROR);
    let closed = after_wait(&mut pool, WaitOutcome::Closed).unwrap();
    assert_eq!(message(closed), QUEUE_INTERNAL_ERROR);
}

#[test]
fn requests_are_counted() {
    let mut counters = PinnedPoolCounters::new();
    counters.count_request();
    counters.count_request();
    counters.count_acquired(true);
    counters.count_acquired(false);
    assert_eq!(counters.total_requests, 2);
    assert_eq!((counters.cache_hits, counters.cache_misses), (1, 1));
}
