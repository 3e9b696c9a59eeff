//! Limits on what a worker may use: memory, CPU time and wall-clock time.
//!
//! Timers, signals and the script engine are the caller's part. Here it is decided what is
//! allowed and when a worker has to stop.

use std::collections::HashMap;

use vstd::prelude::*;
use vstd::utf8::*;

use crate::limits::RuntimeLimits;
use crate::text::text_of_utf8;

verus! {

broadcast use vstd::std_specs::hash::group_hash_axioms;

/// Keeps count of the memory outside the script heap, and limits it.
pub struct CustomAllocator {
    /// How many bytes may be allocated.
    pub max: usize,
    /// How many bytes are allocated.
    pub count: usize,
    /// Whether an allocation was ever refused.
    pub memory_limit_hit: bool,
}

impl CustomAllocator {
    /// No more is allocated than allowed.
    pub open spec fn wf(self) -> bool {
        self.count <= self.max
    }

    /// Whether `n` more bytes may be allocated.
    pub open spec fn admits(self, n: usize) -> bool {
        self.count + n <= self.max
    }

    /// The allocator once `n` bytes were asked for: they count where they may, and a refusal is
    /// remembered.
    pub open spec fn allocated(self, n: usize) -> Self {
        if self.admits(n) {
            CustomAllocator { count: (self.count + n) as usize, ..self }
        } else {
            CustomAllocator { memory_limit_hit: true, ..self }
        }
    }

    /// The allocator once `n` bytes are free again.
    pub open spec fn freed(self, n: usize) -> Self {
        CustomAllocator { count: (self.count - n) as usize, ..self }
    }

    /// Nothing is allocated; `max_bytes` may be.
    pub fn new(max_bytes: usize) -> (r: Self)
        ensures
            r.wf(),
            r == (CustomAllocator { max: max_bytes, count: 0, memory_limit_hit: false }),
    {
        CustomAllocator { max: max_bytes, count: 0, memory_limit_hit: false }
    }

    /// How many bytes are allocated.
    pub fn current_usage(&self) -> (r: usize)
        ensures
            r == self.count,
    {
        self.count
    }

    /// Whether `n` more bytes may be allocated. They count where they may; where they may not,
    /// the refusal is remembered and nothing is counted.
    pub fn allocate(&mut self, n: usize) -> (r: bool)
        requires
            old(self).wf(),
            old(self).count + n <= usize::MAX,
        ensures
            final(self).wf(),
            r == old(self).admits(n),
            *final(self) == old(self).allocated(n),
    {
        let total: usize = self.count + n;
        if total > self.max {
            self.memory_limit_hit = true;
            return false;
        }
        self.count = total;
        true
    }

    /// `n` bytes that were allocated are free again.
    pub fn free(&mut self, n: usize)
        requires
            old(self).wf(),
            n <= old(self).count,
        ensures
            final(self).wf(),
            *final(self) == old(self).freed(n),
    {
        self.count = self.count - n;
    }
}

/// Freeing what was allocated brings the allocator back to where it was.
pub proof fn free_undoes_allocate(a: CustomAllocator, n: usize)
    requires
        a.wf(),
        a.admits(n),
    ensures
        a.allocated(n).freed(n) == a,
{
}

/// A refused request leaves the count as it was, and the refusal is never forgotten: neither
/// another request nor freeing takes it back.
pub proof fn refusal_is_remembered(a: CustomAllocator, refused: usize, n: usize)
    requires
        a.wf(),
        !a.admits(refused),
    ensures
        a.allocated(refused).count == a.count,
        a.allocated(refused).memory_limit_hit,
        a.allocated(refused).allocated(n).memory_limit_hit,
        a.allocated(refused).freed(n).memory_limit_hit,
{
}

/// A request for memory, or its release.
pub enum MemoryStep {
    /// So many bytes are asked for.
    Request(usize),
    /// The block at this place among those that are held is free again.
    Release(int),
}

/// An allocator, and the sizes of the blocks that it has granted and that are not free again.
pub struct MemoryUse {
    pub allocator: CustomAllocator,
    pub held: Seq<usize>,
}

impl MemoryUse {
    /// What follows a step. A block is released once.
    pub open spec fn after(self, step: MemoryStep) -> MemoryUse {
        match step {
            MemoryStep::Request(n) => MemoryUse {
                allocator: self.allocator.allocated(n),
                held: if self.allocator.admits(n) {
                    self.held.push(n)
                } else {
                    self.held
                },
            },
            MemoryStep::Release(i) => if 0 <= i < self.held.len() {
                MemoryUse {
                    allocator: self.allocator.freed(self.held[i]),
                    held: self.held.remove(i),
                }
            } else {
                self
            },
        }
    }

    /// What follows all of `steps`, one after the other.
    pub open spec fn after_all(self, steps: Seq<MemoryStep>) -> MemoryUse
        decreases steps.len(),
    {
        if steps.len() == 0 {
            self
        } else {
            self.after_all(steps.drop_last()).after(steps.last())
        }
    }
}

/// The sum of sizes.
pub open spec fn total(sizes: Seq<usize>) -> int
    decreases sizes.len(),
{
    if sizes.len() == 0 {
        0
    } else {
        total(sizes.drop_last()) + sizes.last()
    }
}

/// Without one of them, sizes sum up to less by it.
proof fn total_without(sizes: Seq<usize>, i: int)
    requires
        0 <= i < sizes.len(),
    ensures
        total(sizes.remove(i)) == total(sizes) - sizes[i],
        sizes[i] <= total(sizes),
    decreases sizes.len(),
{
    let front = sizes.drop_last();
    total_is_not_negative(front);
    if i == sizes.len() - 1 {
        assert(sizes.remove(i) =~= front);
    } else {
        total_without(front, i);
        assert(sizes.remove(i).drop_last() =~= front.remove(i));
        assert(sizes.remove(i).last() == sizes.last());
    }
}

proof fn total_is_not_negative(sizes: Seq<usize>)
    ensures
        0 <= total(sizes),
    decreases sizes.len(),
{
    if sizes.len() > 0 {
        total_is_not_negative(sizes.drop_last());
    }
}

/// However memory is asked for and released, what the allocator counts is the sum of what it has
/// granted and what is not free again, and that is never more than allowed.
pub proof fn count_is_what_is_held(max: usize, steps: Seq<MemoryStep>)
    ensures
        ({
            let start = CustomAllocator { max, count: 0, memory_limit_hit: false };
            let end = (MemoryUse { allocator: start, held: seq![] }).after_all(steps);
            &&& end.allocator.count == total(end.held)
            &&& end.allocator.wf()
            &&& end.allocator.max == max
        }),
    decreases steps.len(),
{
    let start = CustomAllocator { max, count: 0, memory_limit_hit: false };
    let first = MemoryUse { allocator: start, held: seq![] };
    if steps.len() > 0 {
        count_is_what_is_held(max, steps.drop_last());
        let before = first.after_all(steps.drop_last());
        match steps.last() {
            MemoryStep::Request(n) => {
                assert(before.held.push(n).drop_last() =~= before.held);
            },
            MemoryStep::Release(i) => {
                if 0 <= i < before.held.len() {
                    total_without(before.held, i);
                }
            },
        }
    }
}

/// A reading of the clock that counts the CPU time of a thread.
#[derive(Debug, Clone, Copy, PartialEq, Eq, Structural)]
pub struct ClockReading {
    pub seconds: u64,
    pub nanoseconds: u32,
}

/// The CPU time of a thread in nanoseconds, where the platform has a clock for it.
pub fn get_thread_cpu_time(reading: Option<ClockReading>) -> (r: Option<u128>)
    ensures
        match reading {
            Some(t) => r matches Some(n) && n == t.seconds * 1_000_000_000 + t.nanoseconds,
            None => r is None,
        },
{
    match reading {
        Some(t) => Some(t.seconds as u128 * 1_000_000_000 + t.nanoseconds as u128),
        None => None,
    }
}

/// Measures the CPU time of a thread from some moment on, in nanoseconds.
pub struct CpuTimer {
    pub start: u128,
}

impl CpuTimer {
    /// Starts measuring at `now`; without a clock at zero.
    pub fn start(now: Option<u128>) -> (r: Self)
        ensures
            r.start == (match now {
                Some(t) => t,
                None => 0,
            }),
    {
        match now {
            Some(t) => CpuTimer { start: t },
            None => CpuTimer { start: 0 },
        }
    }

    /// The time until `now`; none without a clock, or where the clock went back.
    pub fn elapsed(&self, now: Option<u128>) -> (r: u128)
        ensures
            r == (match now {
                Some(t) => if t >= self.start {
                    t - self.start
                } else {
                    0
                },
                None => 0,
            }),
    {
        match now {
            Some(t) => if t >= self.start {
                t - self.start
            } else {
                0
            },
            None => 0,
        }
    }
}

/// A span of time as timers take it.
#[derive(Debug, Clone, Copy, PartialEq, Eq, Structural)]
pub struct TimerSpec {
    pub seconds: i64,
    pub nanoseconds: i64,
}

/// A span of milliseconds as timers take it.
pub fn timer_spec(timeout_ms: u64) -> (r: TimerSpec)
    ensures
        0 <= r.seconds,
        0 <= r.nanoseconds < 1_000_000_000,
        r.seconds * 1_000_000_000 + r.nanoseconds == timeout_ms * 1_000_000,
{
    let seconds: u64 = timeout_ms / 1000;
    let nanoseconds: u64 = (timeout_ms % 1000) * 1_000_000;
    TimerSpec { seconds: seconds as i64, nanoseconds: nanoseconds as i64 }
}

/// What a timer signal means.
#[derive(Debug, Clone, Copy, PartialEq, Eq, Structural)]
pub enum SignalAction {
    /// The worker has used up its CPU time: stop it.
    Terminate,
    /// The worker was stopped before.
    AlreadyTerminated,
    /// The worker is gone.
    Unknown,
}

/// The flags of enforcers after a signal: that of a known enforcer is set.
pub open spec fn signalled(flags: Map<usize, bool>, id: usize) -> Map<usize, bool> {
    if flags.contains_key(id) {
        flags.insert(id, true)
    } else {
        flags
    }
}

/// What a signal means, by the flags.
pub open spec fn signal_action(flags: Map<usize, bool>, id: usize) -> SignalAction {
    if !flags.contains_key(id) {
        SignalAction::Unknown
    } else if flags[id] {
        SignalAction::AlreadyTerminated
    } else {
        SignalAction::Terminate
    }
}

/// The enforcers of CPU limits, by their numbers: whether each has stopped its worker.
pub struct EnforcerRegistry {
    pub enforcers: HashMap<usize, bool>,
    /// The number of the next enforcer.
    pub next_id: usize,
}

/// Enforces the CPU limit of one worker.
#[derive(Debug, Clone, Copy, PartialEq, Eq, Structural)]
pub struct CpuEnforcer {
    pub enforcer_id: usize,
}

impl EnforcerRegistry {
    /// No enforcers; numbers start at one.
    pub fn new() -> (r: Self)
        ensures
            r.enforcers@ == Map::<usize, bool>::empty(),
            r.next_id == 1,
    {
        EnforcerRegistry { enforcers: HashMap::new(), next_id: 1 }
    }

    /// A number for an enforcer; none where the limit is switched off.
    pub fn begin(&mut self, timeout_ms: u64) -> (r: Option<usize>)
        ensures
            final(self).enforcers@ == old(self).enforcers@,
            timeout_ms == 0 ==> r is None && final(self).next_id == old(self).next_id,
            timeout_ms != 0 ==> r == Some(old(self).next_id) && final(self).next_id == (if old(
                self,
            ).next_id == usize::MAX {
                0
            } else {
                old(self).next_id + 1
            }),
    {
        if timeout_ms == 0 {
            return None;
        }
        let id: usize = self.next_id;
        self.next_id = self.next_id.wrapping_add(1);
        Some(id)
    }

    /// The enforcer watches its worker.
    pub fn register_enforcer(&mut self, enforcer_id: usize)
        ensures
            final(self).enforcers@ == old(self).enforcers@.insert(enforcer_id, false),
            final(self).next_id == old(self).next_id,
    {
        let _old = self.enforcers.insert(enforcer_id, false);
    }

    /// The enforcer is gone.
    pub fn unregister_enforcer(&mut self, enforcer_id: usize)
        ensures
            final(self).enforcers@ == old(self).enforcers@.remove(enforcer_id),
            final(self).next_id == old(self).next_id,
    {
        let _old = self.enforcers.remove(&enforcer_id);
        assert(self.enforcers@ =~= old(self).enforcers@.remove(enforcer_id));
    }

    /// The timer of the enforcer was created, or not; the enforcer watches only where it was.
    pub fn timer_created(&mut self, enforcer_id: usize, created: bool) -> (watching: bool)
        ensures
            watching == created,
            final(self).next_id == old(self).next_id,
            final(self).enforcers@ == (if created {
                old(self).enforcers@.insert(enforcer_id, false)
            } else {
                old(self).enforcers@
            }),
    {
        if created {
            self.register_enforcer(enforcer_id);
        }
        created
    }

    /// What a timer signal for the enforcer means. A worker is stopped once.
    pub fn on_signal(&mut self, enforcer_id: usize) -> (r: SignalAction)
        ensures
            final(self).next_id == old(self).next_id,
            final(self).enforcers@ == signalled(old(self).enforcers@, enforcer_id),
            r == signal_action(old(self).enforcers@, enforcer_id),
    {
        match self.enforcers.get(&enforcer_id) {
            Some(terminated) => {
                let was: bool = *terminated;
                let _old = self.enforcers.insert(enforcer_id, true);
                if was {
                    SignalAction::AlreadyTerminated
                } else {
                    SignalAction::Terminate
                }
            },
            None => SignalAction::Unknown,
        }
    }
}

impl CpuEnforcer {
    /// The timer of the enforcer was armed, or not; without an armed timer there is no enforcer,
    /// and its number is forgotten.
    pub fn new(registry: &mut EnforcerRegistry, enforcer_id: usize, armed: bool) -> (r: Option<
        Self,
    >)
        ensures
            final(registry).next_id == old(registry).next_id,
            armed ==> r == Some(CpuEnforcer { enforcer_id }) && final(registry).enforcers@ == old(
                registry,
            ).enforcers@,
            !armed ==> r is None && final(registry).enforcers@ == old(registry).enforcers@.remove(
                enforcer_id,
            ),
    {
        if armed {
            Some(CpuEnforcer { enforcer_id })
        } else {
            registry.unregister_enforcer(enforcer_id);
            None
        }
    }

    /// Whether the enforcer has stopped its worker.
    pub fn was_terminated(&self, registry: &EnforcerRegistry) -> (r: bool)
        ensures
            r == (registry.enforcers@.contains_key(self.enforcer_id)
                && registry.enforcers@[self.enforcer_id]),
    {
        match registry.enforcers.get(&self.enforcer_id) {
            Some(terminated) => *terminated,
            None => false,
        }
    }

    /// The enforcer starts over; returns what its timer has to be armed with.
    pub fn reset(&self, registry: &mut EnforcerRegistry, timeout_ms: u64) -> (r: TimerSpec)
        ensures
            0 <= r.seconds,
            0 <= r.nanoseconds < 1_000_000_000,
            r.seconds * 1_000_000_000 + r.nanoseconds == timeout_ms * 1_000_000,
            final(registry).next_id == old(registry).next_id,
            final(registry).enforcers@ == (if old(registry).enforcers@.contains_key(
                self.enforcer_id,
            ) {
                old(registry).enforcers@.insert(self.enforcer_id, false)
            } else {
                old(registry).enforcers@
            }),
    {
        if registry.enforcers.contains_key(&self.enforcer_id) {
            let _old = registry.enforcers.insert(self.enforcer_id, false);
        }
        timer_spec(timeout_ms)
    }
}

/// What is known of a heap that is limited.
#[derive(Debug, Clone, Copy, PartialEq, Eq, Structural)]
pub struct HeapLimitState {
    /// Whether the worker was stopped for want of memory.
    pub memory_limit_hit: bool,
    /// How often the heap has come near its limit.
    pub invocation_count: u32,
    /// How large the heap may ever be, in bytes.
    pub max_heap_bytes: usize,
}

/// What follows when a heap comes near its limit.
#[derive(Debug, Clone, Copy, PartialEq, Eq, Structural)]
pub struct HeapDecision {
    /// The new limit, in bytes.
    pub limit: usize,
    /// Whether the worker is stopped.
    pub terminate: bool,
}

impl HeapLimitState {
    /// The limit after `current` where there is room: a tenth more, as far as the heap may grow.
    pub open spec fn grown(self, current: usize) -> int {
        if current + current / 10 <= self.max_heap_bytes {
            current + current / 10
        } else {
            self.max_heap_bytes as int
        }
    }

    /// Whether the heap is given more room when it comes near `current`.
    pub open spec fn grows(self, current: usize) -> bool {
        self.invocation_count == 0 && self.grown(current) > current
    }

    /// The state once the heap has come near `current`. The count starts over at its end.
    pub open spec fn warned(self, current: usize) -> Self {
        HeapLimitState {
            memory_limit_hit: self.memory_limit_hit || !self.grows(current),
            invocation_count: if self.invocation_count == u32::MAX {
                0
            } else {
                (self.invocation_count + 1) as u32
            },
            max_heap_bytes: self.max_heap_bytes,
        }
    }

    /// The heap has never come near its limit.
    pub fn new(max_heap_bytes: usize) -> (r: Self)
        ensures
            r == (HeapLimitState { memory_limit_hit: false, invocation_count: 0, max_heap_bytes }),
    {
        HeapLimitState { memory_limit_hit: false, invocation_count: 0, max_heap_bytes }
    }

    /// The heap comes near `current`, its limit. The first time the limit grows by a tenth, as
    /// far as the heap may grow at all; from then on, and where it may not grow, the worker is
    /// stopped.
    pub fn near_heap_limit_callback(&mut self, current: usize) -> (r: HeapDecision)
        requires
            current + current / 10 <= usize::MAX,
        ensures
            r.terminate == !old(self).grows(current),
            r.limit == (if old(self).grows(current) {
                old(self).grown(current)
            } else {
                current as int
            }),
            *final(self) == old(self).warned(current),
    {
        let count: u32 = self.invocation_count;
        self.invocation_count = count.wrapping_add(1);
        if count == 0 {
            let room: usize = current + current / 10;
            let new_limit: usize = if room < self.max_heap_bytes {
                room
            } else {
                self.max_heap_bytes
            };
            if new_limit > current {
                return HeapDecision { limit: new_limit, terminate: false };
            }
        }
        self.memory_limit_hit = true;
        HeapDecision { limit: current, terminate: true }
    }
}

/// What is written when the script engine runs out of memory: where, of what, and more where
/// there is more to say.
pub open spec fn oom_message(location: Seq<char>, heap: bool, detail: Seq<char>) -> Seq<char> {
    "V8 OOM at "@ + location + ": "@ + (if heap {
        "JavaScript heap"@
    } else {
        "process/external memory"@
    }) + " out of memory"@ + (if detail.len() == 0 {
        Seq::empty()
    } else {
        ": "@ + detail
    })
}

/// The text of some bytes; `missing` where there are none, `invalid` where they are no text.
pub open spec fn text_or(v: Option<&[u8]>, missing: Seq<char>, invalid: Seq<char>) -> Seq<char> {
    match v {
        Some(b) => if valid_utf8(b@) {
            decode_utf8(b@)
        } else {
            invalid
        },
        None => missing,
    }
}

/// What is written when the script engine runs out of memory, from the bytes with which the
/// engine says where and how it happened.
pub fn oom_error_text(location: Option<&[u8]>, heap: bool, detail: Option<&[u8]>) -> (r: String)
    ensures
        r@ == oom_message(
            text_or(location, "unknown"@, "invalid utf8"@),
            heap,
            text_or(detail, ""@, ""@),
        ),
{
    let place = match location {
        Some(b) => match text_of_utf8(b) {
            Some(l) => l,
            None => "invalid utf8",
        },
        None => "unknown",
    };
    let more = match detail {
        Some(b) => match text_of_utf8(b) {
            Some(d) => d,
            None => "",
        },
        None => "",
    };
    let mut s = "V8 OOM at ".to_string();
    s.append(place);
    s.append(": ");
    if heap {
        s.append("JavaScript heap");
    } else {
        s.append("process/external memory");
    }
    s.append(" out of memory");
    if !more.is_empty() {
        s.append(": ");
        s.append(more);
    }
    assert(s@ =~= oom_message(place@, heap, more@));
    s
}

/// How the watch over a worker ended.
#[derive(Debug, Clone, Copy, PartialEq, Eq, Structural)]
pub enum WatchOutcome {
    /// The worker was done in time.
    Cancelled,
    /// The time was up.
    TimedOut,
    /// Nobody waits for the worker any more.
    Disconnected,
}

/// Guards the wall-clock time of a worker.
#[derive(Debug, Clone, Copy, PartialEq, Eq, Structural)]
pub struct TimeoutGuard {
    /// The time that a watchdog waits, in milliseconds, where there is one.
    pub watchdog: Option<u64>,
    /// Whether the time was up.
    pub triggered: bool,
}

impl TimeoutGuard {
    /// A guard for a time in milliseconds; zero switches it off.
    pub fn new(timeout_ms: u64) -> (r: Self)
        ensures
            !r.triggered,
            r.watchdog == (if timeout_ms == 0 {
                None
            } else {
                Some(timeout_ms)
            }),
    {
        if timeout_ms == 0 {
            TimeoutGuard { watchdog: None, triggered: false }
        } else {
            TimeoutGuard { watchdog: Some(timeout_ms), triggered: false }
        }
    }

    /// The watch has ended. Returns whether the worker has to be stopped.
    pub fn watch_ended(&mut self, outcome: WatchOutcome) -> (terminate: bool)
        ensures
            terminate == (outcome is TimedOut),
            *final(self) == (TimeoutGuard {
                triggered: old(self).triggered || outcome is TimedOut,
                ..*old(self)
            }),
    {
        match outcome {
            WatchOutcome::TimedOut => {
                self.triggered = true;
                true
            },
            _ => false,
        }
    }

    /// Whether the time was up.
    pub fn was_triggered(&self) -> (r: bool)
        ensures
            r == self.triggered,
    {
        self.triggered
    }
}

/// How much room the young objects of a script get at most, in bytes.
pub const MAX_YOUNG_GENERATION: usize = 25165824;

/// The sizes of a script heap, in bytes.
#[derive(Debug, Clone, Copy, PartialEq, Eq, Structural)]
pub struct HeapSizes {
    pub initial: usize,
    pub max: usize,
    pub young: usize,
}

/// A number of megabytes in bytes.
pub open spec fn megabytes(n: usize) -> int {
    n * 1048576
}

/// The sizes of the heap of a worker. Young objects never get more room than there is.
pub fn worker_create_params(limits: &RuntimeLimits) -> (r: HeapSizes)
    requires
        megabytes(limits.heap_initial_mb) <= usize::MAX,
        megabytes(limits.heap_max_mb) <= usize::MAX,
    ensures
        r.initial == megabytes(limits.heap_initial_mb),
        r.max == megabytes(limits.heap_max_mb),
        r.young == (if r.max < MAX_YOUNG_GENERATION {
            r.max
        } else {
            MAX_YOUNG_GENERATION
        }),
{
    let initial: usize = limits.heap_initial_mb * 1024 * 1024;
    let max: usize = limits.heap_max_mb * 1024 * 1024;
    let young: usize = if MAX_YOUNG_GENERATION < max {
        MAX_YOUNG_GENERATION
    } else {
        max
    };
    HeapSizes { initial, max, young }
}

/// A heap is given more room once at most, however large its limit is the second time; from
/// then on it is known that the worker ran out of memory.
pub proof fn heap_grows_once(state: HeapLimitState, first: usize, second: usize)
    requires
        state.invocation_count < u32::MAX,
    ensures
        !state.warned(first).grows(second),
        state.warned(first).warned(second).memory_limit_hit,
{
}

/// A heap never gets more room than it may have, and a limit never shrinks.
pub proof fn heap_limit_is_kept(state: HeapLimitState, current: usize)
    requires
        state.grows(current),
    ensures
        current < state.grown(current) <= state.max_heap_bytes,
{
}

/// A worker is stopped once: after the signal that stops it, another says that it was stopped.
pub proof fn terminates_once(flags: Map<usize, bool>, id: usize)
    requires
        signal_action(flags, id) == SignalAction::Terminate,
    ensures
        signal_action(signalled(flags, id), id) == SignalAction::AlreadyTerminated,
{
}

/// A signal for one worker leaves every other as it was.
pub proof fn signal_spares_others(flags: Map<usize, bool>, id: usize, other: usize)
    requires
        id != other,
    ensures
        signal_action(signalled(flags, id), other) == signal_action(flags, other),
{
}

/// A signal that comes late, when the worker is gone, stops nothing.
pub proof fn late_signal_is_ignored(flags: Map<usize, bool>, id: usize)
    ensures
        signal_action(flags.remove(id), id) == SignalAction::Unknown,
        signalled(flags.remove(id), id) == flags.remove(id),
{
}

/// Memory is granted up to the limit, to the last byte, and refused beyond it; what is granted
/// counts, and nothing else changes.
pub proof fn memory_is_granted_up_to_the_limit(a: CustomAllocator, n: usize)
    requires
        a.wf(),
    ensures
        a.admits(n) <==> n <= a.max - a.count,
        a.admits(n) ==> a.allocated(n).count == a.count + n,
        a.admits(n) ==> a.allocated(n).memory_limit_hit == a.memory_limit_hit,
        a.allocated(n).max == a.max,
        n <= a.count ==> a.freed(n).count == a.count - n,
        a.freed(n).max == a.max,
        a.freed(n).memory_limit_hit == a.memory_limit_hit,
{
}

/// The first time that a heap comes near its limit the limit grows by a tenth, or up to what the
/// heap may have where that is less; it grows where that is any more than before, and where it does
/// not grow, or later, the worker is stopped for want of memory.
pub proof fn heap_grows_by_a_tenth(state: HeapLimitState, current: usize)
    ensures
        state.grown(current) <= current + current / 10,
        state.grown(current) <= state.max_heap_bytes,
        state.grown(current) == current + current / 10 || state.grown(current)
            == state.max_heap_bytes,
        state.grows(current) <==> state.invocation_count == 0 && state.max_heap_bytes > current
            && current >= 10,
        state.warned(current).memory_limit_hit <==> state.memory_limit_hit || !state.grows(current),
        state.invocation_count < u32::MAX ==> state.warned(current).invocation_count
            == state.invocation_count + 1,
        state.warned(current).max_heap_bytes == state.max_heap_bytes,
{
}

/// A signal stops a worker that is watched and was not stopped; one for a worker that was stopped
/// says so, and one for a worker that is not watched stops nothing. It is remembered that a worker
/// was stopped.
pub proof fn signal_stops_a_watched_worker(flags: Map<usize, bool>, id: usize)
    ensures
        signal_action(flags.insert(id, false), id) == SignalAction::Terminate,
        signal_action(flags.insert(id, true), id) == SignalAction::AlreadyTerminated,
        signal_action(flags.remove(id), id) == SignalAction::Unknown,
        flags.contains_key(id) ==> signalled(flags, id) == flags.insert(id, true),
        !flags.contains_key(id) ==> signalled(flags, id) == flags,
{
}

/// What is written when the engine runs out of memory says where, of what, and what more is known,
/// in this order; without more to say nothing follows.
pub proof fn memory_message_tells_where(location: Seq<char>, detail: Seq<char>)
    ensures
        oom_message(location, true, Seq::empty()) == "V8 OOM at "@ + location + ": "@
            + "JavaScript heap"@ + " out of memory"@,
        oom_message(location, false, Seq::empty()) == "V8 OOM at "@ + location + ": "@
            + "process/external memory"@ + " out of memory"@,
        detail.len() > 0 ==> forall|heap: bool| #[trigger]
            oom_message(location, heap, detail) == oom_message(location, heap, Seq::empty()) + (
            ": "@ + detail),
{
    let empty = Seq::<char>::empty();
    assert(oom_message(location, true, empty) =~= "V8 OOM at "@ + location + ": "@
        + "JavaScript heap"@ + " out of memory"@);
    assert(oom_message(location, false, empty) =~= "V8 OOM at "@ + location + ": "@
        + "process/external memory"@ + " out of memory"@);
    if detail.len() > 0 {
        assert forall|heap: bool| #[trigger] oom_message(location, heap, detail) == oom_message(
            location,
            heap,
            empty,
        ) + (": "@ + detail) by {
            assert(oom_message(location, heap, detail) =~= oom_message(location, heap, empty) + (
            ": "@ + detail));
        }
    }
}

/// Bytes are shown as the text that they encode; other texts stand for bytes that are none, and for
/// missing ones.
pub proof fn bytes_are_shown_as_text(b: &[u8], missing: Seq<char>, invalid: Seq<char>)
    ensures
        valid_utf8(b@) ==> text_or(Some(b), missing, invalid) == decode_utf8(b@),
        !valid_utf8(b@) ==> text_or(Some(b), missing, invalid) == invalid,
        text_or(None, missing, invalid) == missing,
{
}

/// A megabyte has 1024 times 1024 bytes.
pub proof fn megabytes_are_binary(n: usize)
    ensures
        megabytes(n) == n * 1024 * 1024,
{
}

} // verus!
