use openworkers_runtime::limits::RuntimeLimits;
use openworkers_runtime::security::{
    get_thread_cpu_time, oom_error_text, timer_spec, worker_create_params, ClockReading, CpuEnforcer,
    CpuTimer, CustomAllocator, EnforcerRegistry, HeapDecision, HeapLimitState, SignalAction,
    TimeoutGuard, TimerSpec, WatchOutcome,
};

const MB: usize = 1024 * 1024;

#[test]
fn test_disabled_guard() {
    let guard = TimeoutGuard { watchdog: None, triggered: false };

    assert!(!guard.was_triggered());
    assert!(guard.watchdog.is_none());
    assert_eq!(TimeoutGuard::new(0), guard);
}

#[test]
fn test_triggered_flag_default() {
    let mut guard = TimeoutGuard::new(1000);
    assert!(!guard.was_triggered());

    guard.watch_ended(WatchOutcome::TimedOut);
    assert!(guard.was_triggered());
}

#[test]
fn test_heap_limit_state_creation() {
    let state = HeapLimitState::new(128 * 1024 * 1024);

    assert_eq!(state.invocation_count, 0);
    assert_eq!(state.max_heap_bytes, 128 * 1024 * 1024);
    assert!(!state.memory_limit_hit);
}

#[test]
fn only_a_timeout_triggers_a_guard() {
    let mut guard = TimeoutGuard::new(250);
    assert_eq!(guard.watchdog, Some(250));
    assert!(!guard.watch_ended(WatchOutcome::Cancelled));
    assert!(!guard.watch_ended(WatchOutcome::Disconnected));
    assert!(!guard.was_triggered());
    assert!(guard.watch_ended(WatchOutcome::TimedOut));
    assert!(guard.was_triggered());
    assert!(!guard.watch_ended(WatchOutcome::Cancelled));
    assert!(guard.was_triggered());
}

#[test]
fn an_allocator_grants_up_to_its_limit() {
    let mut a = CustomAllocator::new(100);
    assert_eq!(a.current_usage(), 0);
    assert!(a.allocate(60));
    assert!(a.allocate(40));
    assert_eq!(a.current_usage(), 100);
    assert!(!a.memory_limit_hit);
    assert!(!a.allocate(1));
    assert_eq!(a.current_usage(), 100);
    assert!(a.memory_limit_hit);
    a.free(40);
    assert_eq!(a.current_usage(), 60);
    assert!(a.memory_limit_hit);
    assert!(a.allocate(40));
}

#[test]
fn a_cpu_timer_measures_from_its_start() {
    let start = get_thread_cpu_time(Some(ClockReading { seconds: 2, nanoseconds: 5 }));
    assert_eq!(start, Some(2_000_000_005));
    assert_eq!(get_thread_cpu_time(None), None);
    let timer = CpuTimer::start(start);
    assert_eq!(timer.elapsed(Some(2_000_000_105)), 100);
    assert_eq!(timer.elapsed(Some(1)), 0);
    assert_eq!(timer.elapsed(None), 0);
    assert_eq!(CpuTimer::start(None).elapsed(Some(7)), 7);
}

#[test]
fn a_timeout_is_split_into_seconds_and_nanoseconds() {
    assert_eq!(timer_spec(2500), TimerSpec { seconds: 2, nanoseconds: 500_000_000 });
    assert_eq!(timer_spec(0), TimerSpec { seconds: 0, nanoseconds: 0 });
    assert_eq!(timer_spec(999), TimerSpec { seconds: 0, nanoseconds: 999_000_000 });
    assert_eq!(
        timer_spec(u64::MAX),
        TimerSpec { seconds: 18_446_744_073_709_551, nanoseconds: 615_000_000 }
    );
}

#[test]
fn an_enforcer_terminates_its_worker_once() {
    let mut registry = EnforcerRegistry::new();
    assert_eq!(registry.begin(0), None);
    let id = registry.begin(50).unwrap();
    assert_eq!(id, 1);
    assert_eq!(registry.begin(50), Some(2));
    assert_eq!(registry.on_signal(id), SignalAction::Unknown);
    assert!(registry.timer_created(id, true));
    let enforcer = CpuEnforcer::new(&mut registry, id, true).unwrap();
    assert_eq!(enforcer, CpuEnforcer { enforcer_id: 1 });
    assert!(!enforcer.was_terminated(&registry));
    assert_eq!(registry.on_signal(id), SignalAction::Terminate);
    assert!(enforcer.was_terminated(&registry));
    assert_eq!(registry.on_signal(id), SignalAction::AlreadyTerminated);
    assert_eq!(
        enforcer.reset(&mut registry, 1500),
        TimerSpec { seconds: 1, nanoseconds: 500_000_000 }
    );
    assert!(!enforcer.was_terminated(&registry));
    registry.unregister_enforcer(id);
    assert_eq!(registry.on_signal(id), SignalAction::Unknown);
    assert!(!enforcer.was_terminated(&registry));
}

#[test]
fn there_is_no_enforcer_without_a_timer() {
    let mut registry = EnforcerRegistry::new();
    let id = registry.begin(50).unwrap();
    assert!(!registry.timer_created(id, false));
    assert_eq!(registry.on_signal(id), SignalAction::Unknown);
    let id = registry.begin(50).unwrap();
    assert!(registry.timer_created(id, true));
    assert_eq!(CpuEnforcer::new(&mut registry, id, false), None);
    assert_eq!(registry.on_signal(id), SignalAction::Unknown);
}

#[test]
fn a_heap_grows_once_and_then_its_worker_is_stopped() {
    let mut state = HeapLimitState::new(200);
    assert_eq!(state.near_heap_limit_callback(100), HeapDecision { limit: 110, terminate: false });
    assert!(!state.memory_limit_hit);
    assert_eq!(state.near_heap_limit_callback(110), HeapDecision { limit: 110, terminate: true });
    assert!(state.memory_limit_hit);
    assert_eq!(state.invocation_count, 2);
}

#[test]
fn a_heap_does_not_grow_beyond_its_maximum() {
    let mut state = HeapLimitState::new(105);
    assert_eq!(state.near_heap_limit_callback(100), HeapDecision { limit: 105, terminate: false });
    let mut state = HeapLimitState::new(100);
    assert_eq!(state.near_heap_limit_callback(100), HeapDecision { limit: 100, terminate: true });
    assert!(state.memory_limit_hit);
}

#[test]
fn running_out_of_memory_is_described() {
    assert_eq!(
        oom_error_text(Some(b"Heap::Grow"), true, Some(b"near the limit")),
        "V8 OOM at Heap::Grow: JavaScript heap out of memory: near the limit"
    );
    assert_eq!(
        oom_error_text(None, false, None),
        "V8 OOM at unknown: process/external memory out of memory"
    );
    assert_eq!(
        oom_error_text(Some(&[0xff, 0xfe]), true, Some(&[0xff])),
        "V8 OOM at invalid utf8: JavaScript heap out of memory"
    );
}

#[test]
fn heap_sizes_come_from_megabytes() {
    let mut limits = RuntimeLimits {
        heap_initial_mb: 1,
        heap_max_mb: 128,
        max_cpu_time_ms: 0,
        max_wall_clock_time_ms: 0,
        stream_buffer_size: 16,
    };
    let sizes = worker_create_params(&limits);
    assert_eq!((sizes.initial, sizes.max, sizes.young), (MB, 128 * MB, 24 * MB));
    limits.heap_max_mb = 8;
    assert_eq!(worker_create_params(&limits).young, 8 * MB);
}

#[test]
fn the_allocator_counts_what_is_held() {
    let mut allocator = CustomAllocator::new(100);
    assert!(allocator.allocate(30));
    assert!(allocator.allocate(50));
    assert!(!allocator.allocate(30));
    assert_eq!(allocator.current_usage(), 80);
    allocator.free(30);
    assert!(allocator.allocate(40));
    assert_eq!(allocator.current_usage(), 90);
    allocator.free(50);
    allocator.free(40);
    assert_eq!(allocator.current_usage(), 0);
    assert!(allocator.memory_limit_hit);
}
