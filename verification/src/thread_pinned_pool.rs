//! A pool of script isolates that belongs to one thread.
//!
//! Every isolate is tagged with its owner and only ever serves that owner. Several isolates
//! may exist for one owner, so that its requests run side by side. When the pool is full the
//! free isolate that has been idle longest makes room; an owner at its limit waits in a queue
//! of bounded length and for a bounded time.

use vstd::prelude::*;

use crate::limits::{ReasonView, RuntimeLimits, TerminationReason};
use crate::text::str_eq;

verus! {

/// Number of requests that may wait per thread, where nothing else is configured.
pub const DEFAULT_QUEUE_SIZE: usize = 10;

/// Longest wait in milliseconds, where nothing else is configured.
pub const DEFAULT_QUEUE_TIMEOUT_MS: u64 = 5000;

/// Answer to a request that finds the queue full.
pub const QUEUE_FULL_ERROR: &'static str = "Queue full - service unavailable";

/// Answer to a request that waited too long.
pub const QUEUE_TIMEOUT_ERROR: &'static str = "Queue wait timeout";

/// Answer to a request whose wait was cut off.
pub const QUEUE_INTERNAL_ERROR: &'static str = "Internal error";

/// Settings of a pool.
#[derive(Clone, Copy, Debug, PartialEq, Eq, Structural)]
pub struct PinnedPoolConfig {
    /// Isolates per thread.
    pub max_per_thread: usize,
    /// Isolates per owner and thread; `None` leaves only the bound per thread.
    pub max_per_owner: Option<usize>,
    /// Requests that may wait per thread.
    pub queue_size: usize,
    /// Longest wait in milliseconds.
    pub queue_timeout_ms: u64,
    /// Limits of the isolates.
    pub limits: RuntimeLimits,
}

/// Stores the settings in `slot` with the default queue. The first settings stay: returns
/// whether these were the first.
pub fn init_pinned_pool(
    slot: &mut Option<PinnedPoolConfig>,
    max_per_thread: usize,
    limits: RuntimeLimits,
) -> (stored: bool)
    ensures
        stored == (*old(slot) is None),
        *final(slot) == (if *old(slot) is None {
            Some(
                (PinnedPoolConfig {
                    max_per_thread,
                    max_per_owner: None,
                    queue_size: DEFAULT_QUEUE_SIZE,
                    queue_timeout_ms: DEFAULT_QUEUE_TIMEOUT_MS,
                    limits,
                }),
            )
        } else {
            *old(slot)
        }),
{
    init_pinned_pool_full(
        slot,
        max_per_thread,
        None,
        DEFAULT_QUEUE_SIZE,
        DEFAULT_QUEUE_TIMEOUT_MS,
        limits,
    )
}

/// Stores the settings in `slot` with a limit per owner and the default queue. The first
/// settings stay: returns whether these were the first.
pub fn init_pinned_pool_with_owner_limit(
    slot: &mut Option<PinnedPoolConfig>,
    max_per_thread: usize,
    max_per_owner: Option<usize>,
    limits: RuntimeLimits,
) -> (stored: bool)
    ensures
        stored == (*old(slot) is None),
        *final(slot) == (if *old(slot) is None {
            Some(
                (PinnedPoolConfig {
                    max_per_thread,
                    max_per_owner,
                    queue_size: DEFAULT_QUEUE_SIZE,
                    queue_timeout_ms: DEFAULT_QUEUE_TIMEOUT_MS,
                    limits,
                }),
            )
        } else {
            *old(slot)
        }),
{
    init_pinned_pool_full(
        slot,
        max_per_thread,
        max_per_owner,
        DEFAULT_QUEUE_SIZE,
        DEFAULT_QUEUE_TIMEOUT_MS,
        limits,
    )
}

/// Stores the settings in `slot`. The first settings stay: returns whether these were the
/// first.
pub fn init_pinned_pool_full(
    slot: &mut Option<PinnedPoolConfig>,
    max_per_thread: usize,
    max_per_owner: Option<usize>,
    queue_size: usize,
    queue_timeout_ms: u64,
    limits: RuntimeLimits,
) -> (stored: bool)
    ensures
        stored == (*old(slot) is None),
        *final(slot) == (if *old(slot) is None {
            Some(
                (PinnedPoolConfig {
                    max_per_thread,
                    max_per_owner,
                    queue_size,
                    queue_timeout_ms,
                    limits,
                }),
            )
        } else {
            *old(slot)
        }),
{
    if slot.is_none() {
        *slot = Some(
            PinnedPoolConfig {
                max_per_thread,
                max_per_owner,
                queue_size,
                queue_timeout_ms,
                limits,
            },
        );
        true
    } else {
        false
    }
}

/// An isolate of the pool. The script engine's own object is found by `id`.
pub struct TaggedIsolate {
    /// Names the isolate; no two isolates of a pool share it.
    pub id: u64,
    /// Whom the isolate serves; never changes.
    pub owner_id: String,
    /// Whether a request holds the isolate.
    pub in_use: bool,
    /// Whether a request is working on the isolate's data.
    pub locked: bool,
    /// When a request last began to work on the isolate.
    pub last_used: u64,
    /// How many requests have worked on the isolate.
    pub total_requests: u64,
}

/// What there is to know about an isolate.
pub struct IsolateView {
    pub id: u64,
    pub owner_id: Seq<char>,
    pub in_use: bool,
    pub locked: bool,
    pub last_used: u64,
    pub total_requests: u64,
}

impl View for TaggedIsolate {
    type V = IsolateView;

    open spec fn view(&self) -> IsolateView {
        IsolateView {
            id: self.id,
            owner_id: self.owner_id@,
            in_use: self.in_use,
            locked: self.locked,
            last_used: self.last_used,
            total_requests: self.total_requests,
        }
    }
}

impl TaggedIsolate {
    /// A free isolate for `owner_id`, created at `now`.
    pub fn new(id: u64, owner_id: String, now: u64) -> (r: Self)
        ensures
            r@ == fresh_isolate(id, owner_id@, now),
    {
        TaggedIsolate {
            id,
            owner_id,
            in_use: false,
            locked: false,
            last_used: now,
            total_requests: 0,
        }
    }

    /// Takes the isolate if it is free; returns whether it was.
    pub fn try_acquire(&mut self) -> (r: bool)
        ensures
            r == !old(self).in_use,
            final(self)@ == (IsolateView { in_use: true, ..old(self)@ }),
    {
        if self.in_use {
            false
        } else {
            self.in_use = true;
            true
        }
    }

    /// Gives the isolate back.
    pub fn release(&mut self)
        ensures
            final(self)@ == (IsolateView { in_use: false, ..old(self)@ }),
    {
        self.in_use = false;
    }

    /// Whether the isolate is free.
    pub fn is_free(&self) -> (r: bool)
        ensures
            r == !self.in_use,
    {
        !self.in_use
    }
}

/// A free isolate that has served nobody yet.
pub open spec fn fresh_isolate(id: u64, owner_id: Seq<char>, now: u64) -> IsolateView {
    IsolateView {
        id,
        owner_id,
        in_use: false,
        locked: false,
        last_used: now,
        total_requests: 0,
    }
}

/// What there is to know about a pool.
pub struct PoolView {
    pub isolates: Seq<IsolateView>,
    pub next_id: u64,
    pub max_isolates: usize,
    pub max_per_owner: Option<usize>,
    pub queue_size: usize,
    pub current_waiters: usize,
}

/// What an acquisition hands out.
pub struct AcquireView {
    pub isolate: u64,
    pub cache_hit: bool,
    pub evicted: Option<Seq<char>>,
    pub evicted_isolate: Option<u64>,
}

/// How many isolates belong to `owner`, free or not.
pub open spec fn owned_count(s: Seq<IsolateView>, owner: Seq<char>) -> nat
    decreases s.len(),
{
    if s.len() == 0 {
        0
    } else {
        owned_count(s.drop_last(), owner) + (if s.last().owner_id == owner {
            1nat
        } else {
            0nat
        })
    }
}

/// How many isolates are held by a request.
pub open spec fn busy_count(s: Seq<IsolateView>) -> nat
    decreases s.len(),
{
    if s.len() == 0 {
        0
    } else {
        busy_count(s.drop_last()) + (if s.last().in_use {
            1nat
        } else {
            0nat
        })
    }
}

/// Whether `i` is the first free isolate of `owner`.
pub open spec fn is_first_free(s: Seq<IsolateView>, owner: Seq<char>, i: int) -> bool {
    &&& 0 <= i < s.len()
    &&& s[i].owner_id == owner && !s[i].in_use
    &&& forall|j: int| 0 <= j < i ==> (#[trigger] s[j]).owner_id != owner || s[j].in_use
}

/// The first free isolate of `owner`, where there is one.
pub open spec fn first_free(s: Seq<IsolateView>, owner: Seq<char>) -> Option<int> {
    if exists|i: int| is_first_free(s, owner, i) {
        Some(choose|i: int| is_first_free(s, owner, i))
    } else {
        None
    }
}

/// Whether an isolate may make room at `now`: nobody holds it, and it was last used before.
pub open spec fn evictable(t: IsolateView, now: u64) -> bool {
    !t.in_use && !t.locked && t.last_used < now
}

/// Whether `i` is the isolate that has been idle longest; of several, the first.
pub open spec fn is_lru(s: Seq<IsolateView>, now: u64, i: int) -> bool {
    &&& 0 <= i < s.len()
    &&& evictable(s[i], now)
    &&& forall|j: int|
        0 <= j < s.len() && evictable(#[trigger] s[j], now) ==> s[i].last_used <= s[j].last_used
    &&& forall|j: int|
        0 <= j < i && evictable(#[trigger] s[j], now) ==> s[i].last_used < s[j].last_used
}

/// The isolate that has been idle longest, where one may make room.
pub open spec fn lru(s: Seq<IsolateView>, now: u64) -> Option<int> {
    if exists|i: int| is_lru(s, now, i) {
        Some(choose|i: int| is_lru(s, now, i))
    } else {
        None
    }
}

impl PoolView {
    /// Ids are distinct and below the next one; the queue is no longer than allowed.
    pub open spec fn wf(self) -> bool {
        &&& self.current_waiters <= self.queue_size
        &&& forall|i: int| 0 <= i < self.isolates.len() ==> (#[trigger] self.isolates[i]).id < self.next_id
        &&& forall|i: int, j: int|
            0 <= i < j < self.isolates.len() ==> (#[trigger] self.isolates[i]).id != (
            #[trigger] self.isolates[j]).id
    }

    /// Whether `owner` has as many isolates as it may have.
    pub open spec fn owner_at_limit(self, owner: Seq<char>) -> bool {
        match self.max_per_owner {
            Some(limit) => owned_count(self.isolates, owner) >= limit,
            None => false,
        }
    }

    /// The pool with a new isolate that `owner` holds.
    pub open spec fn with_new(self, owner: Seq<char>, now: u64) -> PoolView {
        PoolView {
            isolates: self.isolates.push(
                IsolateView { in_use: true, ..fresh_isolate(self.next_id, owner, now) },
            ),
            next_id: (self.next_id + 1) as u64,
            ..self
        }
    }

    /// The pool without its isolate at `i`.
    pub open spec fn without(self, i: int) -> PoolView {
        PoolView { isolates: self.isolates.remove(i), ..self }
    }

    /// The pool after a request of `owner` at `now`, and what the request gets. A free isolate
    /// of the owner is reused; an owner at its limit gets nothing; a pool with room grows; a
    /// full pool lets the isolate go that has been idle longest, and grows past its size where
    /// every isolate is busy.
    pub open spec fn acquire(self, owner: Seq<char>, now: u64) -> (PoolView, Option<AcquireView>) {
        let miss = AcquireView {
            isolate: self.next_id,
            cache_hit: false,
            evicted: None,
            evicted_isolate: None,
        };
        match first_free(self.isolates, owner) {
            Some(i) => (
                PoolView {
                    isolates: self.isolates.update(
                        i,
                        IsolateView { in_use: true, ..self.isolates[i] },
                    ),
                    ..self
                },
                Some(
                    AcquireView {
                        isolate: self.isolates[i].id,
                        cache_hit: true,
                        evicted: None,
                        evicted_isolate: None,
                    },
                ),
            ),
            None => if self.owner_at_limit(owner) {
                (self, None)
            } else if self.isolates.len() < self.max_isolates {
                (self.with_new(owner, now), Some(miss))
            } else {
                match lru(self.isolates, now) {
                    Some(i) => (
                        self.without(i).with_new(owner, now),
                        Some(
                            AcquireView {
                                evicted: Some(self.isolates[i].owner_id),
                                evicted_isolate: Some(self.isolates[i].id),
                                ..miss
                            },
                        ),
                    ),
                    None => (self.with_new(owner, now), Some(miss)),
                }
            },
        }
    }
}

impl PoolView {
    /// The pool once a request wants to join the queue: it waits where there is room.
    pub open spec fn entered(self) -> PoolView {
        if self.current_waiters < self.queue_size {
            PoolView { current_waiters: (self.current_waiters + 1) as usize, ..self }
        } else {
            self
        }
    }

    /// The pool once a request has left the queue.
    pub open spec fn left(self) -> PoolView {
        if self.current_waiters > 0 {
            PoolView { current_waiters: (self.current_waiters - 1) as usize, ..self }
        } else {
            self
        }
    }

    /// The pool after a request of `owner` at `now` that has been under way for `elapsed_ns`, and
    /// what the request has to do next.
    pub open spec fn step(
        self,
        owner: Seq<char>,
        now: u64,
        elapsed_ns: u128,
        timeout_ms: u64,
    ) -> (PoolView, StepView) {
        match self.acquire(owner, now) {
            (after, Some(a)) => (after, StepView::Run(a)),
            (_, None) => if self.current_waiters >= self.queue_size {
                (self, StepView::Fail(ReasonView::Other(QUEUE_FULL_ERROR@)))
            } else if elapsed_ns >= timeout_ns(timeout_ms) {
                (self, StepView::Fail(ReasonView::Other(QUEUE_TIMEOUT_ERROR@)))
            } else {
                (self.entered(), StepView::Wait(timeout_ns(timeout_ms) - elapsed_ns))
            },
        }
    }
}

/// What an acquisition hands out.
#[derive(Debug)]
pub struct AcquireResult {
    /// The isolate that the request now holds.
    pub isolate: u64,
    /// Whether the isolate existed before.
    pub cache_hit: bool,
    /// The owner of the isolate that made room.
    pub evicted: Option<String>,
    /// The isolate that made room.
    pub evicted_isolate: Option<u64>,
}

impl View for AcquireResult {
    type V = AcquireView;

    open spec fn view(&self) -> AcquireView {
        AcquireView {
            isolate: self.isolate,
            cache_hit: self.cache_hit,
            evicted: match self.evicted {
                Some(s) => Some(s@),
                None => None,
            },
            evicted_isolate: self.evicted_isolate,
        }
    }
}

/// The isolates of one thread, and the number of requests that wait for one.
pub struct ThreadLocalPool {
    /// All isolates.
    pub isolates: Vec<TaggedIsolate>,
    /// The id of the isolate that is created next.
    pub next_id: u64,
    /// How many isolates the pool is meant to hold.
    pub max_isolates: usize,
    /// How many isolates one owner may have.
    pub max_per_owner: Option<usize>,
    /// How many requests may wait.
    pub queue_size: usize,
    /// How many requests wait.
    pub current_waiters: usize,
}

impl View for ThreadLocalPool {
    type V = PoolView;

    open spec fn view(&self) -> PoolView {
        PoolView {
            isolates: self.isolates@.map_values(|t: TaggedIsolate| t@),
            next_id: self.next_id,
            max_isolates: self.max_isolates,
            max_per_owner: self.max_per_owner,
            queue_size: self.queue_size,
            current_waiters: self.current_waiters,
        }
    }
}

/// Numbers that describe a pool.
#[derive(Debug, Clone, Copy, PartialEq, Eq, Structural)]
pub struct LocalPoolStats {
    /// Isolates in the pool.
    pub total: usize,
    /// Isolates that a request holds.
    pub in_use: usize,
    /// Isolates that the pool is meant to hold.
    pub capacity: usize,
}

impl ThreadLocalPool {
    /// An empty pool.
    pub fn new(
        max_isolates: usize,
        max_per_owner: Option<usize>,
        queue_size: usize,
    ) -> (r: Self)
        ensures
            r@.wf(),
            r@ == (PoolView {
                isolates: Seq::empty(),
                next_id: 0,
                max_isolates,
                max_per_owner,
                queue_size,
                current_waiters: 0,
            }),
    {
        let r = ThreadLocalPool {
            isolates: Vec::new(),
            next_id: 0,
            max_isolates,
            max_per_owner,
            queue_size,
            current_waiters: 0,
        };
        assert(r@.isolates =~= Seq::empty());
        r
    }

    /// Joins the queue unless it is full; returns whether there was room.
    pub fn try_enter_queue(&mut self) -> (r: bool)
        requires
            old(self)@.wf(),
        ensures
            final(self)@.wf(),
            r == (old(self).current_waiters < old(self).queue_size),
            final(self)@ == old(self)@.entered(),
            final(self)@ == (PoolView {
                current_waiters: if r {
                    (old(self).current_waiters + 1) as usize
                } else {
                    old(self).current_waiters
                },
                ..old(self)@
            }),
    {
        if self.current_waiters < self.queue_size {
            self.current_waiters = self.current_waiters + 1;
            true
        } else {
            false
        }
    }

    /// Leaves the queue.
    pub fn leave_queue(&mut self)
        requires
            old(self)@.wf(),
        ensures
            final(self)@.wf(),
            final(self)@ == old(self)@.left(),
            final(self)@ == (PoolView {
                current_waiters: if old(self).current_waiters > 0 {
                    (old(self).current_waiters - 1) as usize
                } else {
                    0
                },
                ..old(self)@
            }),
    {
        if self.current_waiters > 0 {
            self.current_waiters = self.current_waiters - 1;
        }
    }

    /// Whether the release of an isolate wakes a waiting request.
    pub fn signal_release(&self) -> (r: bool)
        ensures
            r == (self.current_waiters > 0),
    {
        self.current_waiters > 0
    }

    /// How many isolates belong to `owner_id`.
    pub fn count_for_owner(&self, owner_id: &str) -> (r: usize)
        ensures
            r == owned_count(self@.isolates, owner_id@),
    {
        let mut n: usize = 0;
        let mut i: usize = 0;
        while i < self.isolates.len()
            invariant
                i <= self.isolates.len(),
                n <= i,
                n == owned_count(self@.isolates.take(i as int), owner_id@),
            decreases self.isolates.len() - i,
        {
            assert(self@.isolates.take(i + 1).drop_last() =~= self@.isolates.take(i as int));
            if str_eq(self.isolates[i].owner_id.as_str(), owner_id) {
                n += 1;
            }
            i += 1;
        }
        assert(self@.isolates.take(i as int) =~= self@.isolates);
        n
    }

    /// Whether `owner_id` has as many isolates as it may have.
    pub fn owner_at_limit(&self, owner_id: &str) -> (r: bool)
        ensures
            r == self@.owner_at_limit(owner_id@),
    {
        match self.max_per_owner {
            Some(limit) => self.count_for_owner(owner_id) >= limit,
            None => false,
        }
    }
}

/// A request that finds no isolate and none to make room sees only isolates that are busy or
/// were used at this very moment.
proof fn lru_absent(s: Seq<IsolateView>, now: u64)
    requires
        forall|i: int| 0 <= i < s.len() ==> !evictable(#[trigger] s[i], now),
    ensures
        lru(s, now) is None,
{
}

/// There is at most one isolate that has been idle longest.
proof fn lru_unique(s: Seq<IsolateView>, now: u64, i: int)
    requires
        is_lru(s, now, i),
    ensures
        lru(s, now) == Some(i),
{
    let k = choose|k: int| is_lru(s, now, k);
    assert(is_lru(s, now, k));
    if k < i {
        assert(s[k].last_used <= s[i].last_used);
    } else if i < k {
        assert(s[i].last_used <= s[k].last_used);
    }
}

/// There is at most one first free isolate.
proof fn first_free_unique(s: Seq<IsolateView>, owner: Seq<char>, i: int)
    requires
        is_first_free(s, owner, i),
    ensures
        first_free(s, owner) == Some(i),
{
    let k = choose|k: int| is_first_free(s, owner, k);
    assert(is_first_free(s, owner, k));
}

impl ThreadLocalPool {
    /// The position of the first free isolate of `owner_id`.
    fn find_free(&self, owner_id: &str) -> (r: Option<usize>)
        ensures
            match r {
                Some(i) => first_free(self@.isolates, owner_id@) == Some(i as int) && i
                    < self.isolates.len(),
                None => first_free(self@.isolates, owner_id@) is None,
            },
    {
        let mut i: usize = 0;
        while i < self.isolates.len()
            invariant
                i <= self.isolates.len(),
                forall|j: int|
                    0 <= j < i ==> (#[trigger] self@.isolates[j]).owner_id != owner_id@
                        || self@.isolates[j].in_use,
            decreases self.isolates.len() - i,
        {
            if str_eq(self.isolates[i].owner_id.as_str(), owner_id) && self.isolates[i].is_free() {
                proof {
                    first_free_unique(self@.isolates, owner_id@, i as int);
                }
                return Some(i);
            }
            i += 1;
        }
        None
    }

    /// The position of the isolate that has been idle longest.
    fn find_lru(&self, now: u64) -> (r: Option<usize>)
        ensures
            match r {
                Some(i) => lru(self@.isolates, now) == Some(i as int) && i < self.isolates.len(),
                None => lru(self@.isolates, now) is None,
            },
    {
        let mut lru_idx: Option<usize> = None;
        let mut oldest: u64 = now;
        let mut i: usize = 0;
        while i < self.isolates.len()
            invariant
                i <= self.isolates.len(),
                oldest <= now,
                match lru_idx {
                    Some(k) => {
                        &&& k < i
                        &&& oldest == self@.isolates[k as int].last_used
                        &&& evictable(self@.isolates[k as int], now)
                        &&& forall|j: int|
                            0 <= j < i && evictable(#[trigger] self@.isolates[j], now) ==> oldest
                                <= self@.isolates[j].last_used
                        &&& forall|j: int|
                            0 <= j < k && evictable(#[trigger] self@.isolates[j], now) ==> oldest
                                < self@.isolates[j].last_used
                    },
                    None => oldest == now && forall|j: int|
                        0 <= j < i ==> !evictable(#[trigger] self@.isolates[j], now),
                },
            decreases self.isolates.len() - i,
        {
            let entry = &self.isolates[i];
            assert(self@.isolates[i as int] == entry@);
            if entry.is_free() && !entry.locked && entry.last_used < oldest {
                oldest = entry.last_used;
                lru_idx = Some(i);
            }
            i += 1;
        }
        proof {
            match lru_idx {
                Some(k) => {
                    lru_unique(self@.isolates, now, k as int);
                },
                None => {
                    lru_absent(self@.isolates, now);
                },
            }
        }
        lru_idx
    }

    /// Adds an isolate that `owner_id` holds and returns its id.
    fn push_new(&mut self, owner_id: &str, now: u64) -> (id: u64)
        requires
            old(self)@.wf(),
            old(self).next_id < u64::MAX,
        ensures
            final(self)@.wf(),
            id == old(self).next_id,
            final(self)@ == old(self)@.with_new(owner_id@, now),
    {
        let id: u64 = self.next_id;
        let mut entry = TaggedIsolate::new(id, owner_id.to_string(), now);
        let _taken = entry.try_acquire();
        self.next_id = self.next_id + 1;
        self.isolates.push(entry);
        assert(self@.isolates =~= old(self)@.with_new(owner_id@, now).isolates);
        id
    }

    /// Finds an isolate for a request of `owner_id` at `now`, as [`PoolView::acquire`] says.
    pub fn acquire(&mut self, owner_id: &str, now: u64) -> (r: Option<AcquireResult>)
        requires
            old(self)@.wf(),
            old(self).next_id < u64::MAX,
        ensures
            final(self)@.wf(),
            final(self)@ == old(self)@.acquire(owner_id@, now).0,
            match r {
                Some(a) => old(self)@.acquire(owner_id@, now).1 == Some(a@),
                None => old(self)@.acquire(owner_id@, now).1 is None,
            },
    {
        if let Some(i) = self.find_free(owner_id) {
            let id: u64 = self.isolates[i].id;
            let _taken = self.isolates[i].try_acquire();
            assert(self@.isolates =~= old(self)@.acquire(owner_id@, now).0.isolates);
            return Some(
                AcquireResult { isolate: id, cache_hit: true, evicted: None, evicted_isolate: None },
            );
        }
        if self.owner_at_limit(owner_id) {
            return None;
        }
        if self.isolates.len() < self.max_isolates {
            let id: u64 = self.push_new(owner_id, now);
            return Some(
                AcquireResult {
                    isolate: id,
                    cache_hit: false,
                    evicted: None,
                    evicted_isolate: None,
                },
            );
        }
        if let Some(i) = self.find_lru(now) {
            let gone = self.isolates.remove(i);
            assert(self@.isolates =~= old(self)@.without(i as int).isolates);
            let id: u64 = self.push_new(owner_id, now);
            return Some(
                AcquireResult {
                    isolate: id,
                    cache_hit: false,
                    evicted: Some(gone.owner_id),
                    evicted_isolate: Some(gone.id),
                },
            );
        }
        let id: u64 = self.push_new(owner_id, now);
        Some(
            AcquireResult { isolate: id, cache_hit: false, evicted: None, evicted_isolate: None },
        )
    }
}

/// `s` without its first `k` free isolates, or without all of them where there are fewer.
pub open spec fn drop_free(s: Seq<IsolateView>, k: int) -> Seq<IsolateView>
    decreases s.len(),
{
    if s.len() == 0 || k <= 0 {
        s
    } else if s[0].in_use {
        seq![s[0]] + drop_free(s.skip(1), k)
    } else {
        drop_free(s.skip(1), k - 1)
    }
}

/// `s` with the isolate `id` changed by `f`.
pub open spec fn with_isolate(
    s: Seq<IsolateView>,
    id: u64,
    f: spec_fn(IsolateView) -> IsolateView,
) -> Seq<IsolateView> {
    Seq::new(
        s.len(),
        |i: int|
            if s[i].id == id {
                f(s[i])
            } else {
                s[i]
            },
    )
}

/// An isolate that a request at `now` begins to work on.
pub open spec fn begun(now: u64) -> spec_fn(IsolateView) -> IsolateView {
    |t: IsolateView|
        IsolateView {
            locked: true,
            last_used: now,
            total_requests: (t.total_requests + 1) as u64,
            ..t
        }
}

/// An isolate that its request has given back.
pub open spec fn given_back() -> spec_fn(IsolateView) -> IsolateView {
    |t: IsolateView| IsolateView { locked: false, in_use: false, ..t }
}

impl ThreadLocalPool {
    /// Removes free isolates, first ones first, as long as there are more than the pool is
    /// meant to hold.
    pub fn cleanup_overlimit(&mut self)
        requires
            old(self)@.wf(),
        ensures
            final(self)@.wf(),
            final(self)@ == (PoolView {
                isolates: drop_free(
                    old(self)@.isolates,
                    old(self)@.isolates.len() - old(self).max_isolates,
                ),
                ..old(self)@
            }),
    {
        let ghost excess = self@.isolates.len() - self.max_isolates;
        let ghost all = self@.isolates;
        let mut i: usize = 0;
        assert(self@.isolates.take(0) + drop_free(self@.isolates.skip(0), excess) =~= drop_free(
            all,
            excess,
        )) by {
            assert(self@.isolates.skip(0) =~= self@.isolates);
        }
        while i < self.isolates.len() && self.isolates.len() > self.max_isolates
            invariant
                i <= self.isolates.len(),
                self@.wf(),
                self@ == (PoolView { isolates: self@.isolates, ..old(self)@ }),
                drop_free(all, excess) == self@.isolates.take(i as int) + drop_free(
                    self@.isolates.skip(i as int),
                    self@.isolates.len() - self.max_isolates,
                ),
            decreases self.isolates.len() - i,
        {
            let ghost before = self@.isolates;
            let ghost k = before.len() - self.max_isolates;
            assert(before.skip(i as int)[0] == before[i as int]);
            assert(before.skip(i as int).skip(1) =~= before.skip(i + 1));
            if self.isolates[i].is_free() {
                let _gone = self.isolates.remove(i);
                assert(self@.isolates =~= before.remove(i as int));
                assert(self@.isolates.skip(i as int) =~= before.skip(i + 1));
                assert(self@.isolates.take(i as int) =~= before.take(i as int));
            } else {
                assert(before.take(i as int) + (seq![before[i as int]] + drop_free(
                    before.skip(i + 1),
                    k,
                )) =~= before.take(i + 1) + drop_free(before.skip(i + 1), k));
                i += 1;
            }
        }
        assert(self@.isolates.take(i as int) + self@.isolates.skip(i as int) =~= self@.isolates);
    }

    /// Numbers that describe the pool.
    pub fn stats(&self) -> (r: LocalPoolStats)
        ensures
            r.total == self@.isolates.len(),
            r.in_use == busy_count(self@.isolates),
            r.capacity == self.max_isolates,
    {
        let mut n: usize = 0;
        let mut i: usize = 0;
        while i < self.isolates.len()
            invariant
                i <= self.isolates.len(),
                n <= i,
                n == busy_count(self@.isolates.take(i as int)),
            decreases self.isolates.len() - i,
        {
            assert(self@.isolates.take(i + 1).drop_last() =~= self@.isolates.take(i as int));
            if !self.isolates[i].is_free() {
                n += 1;
            }
            i += 1;
        }
        assert(self@.isolates.take(i as int) =~= self@.isolates);
        LocalPoolStats { total: self.isolates.len(), in_use: n, capacity: self.max_isolates }
    }

    /// A request starts to work on the isolate `id` at `now`.
    pub fn begin_request(&mut self, id: u64, now: u64)
        requires
            old(self)@.wf(),
            forall|i: int|
                0 <= i < old(self)@.isolates.len() && (#[trigger] old(self)@.isolates[i]).id == id
                    ==> old(self)@.isolates[i].total_requests < u64::MAX,
        ensures
            final(self)@.wf(),
            final(self)@ == (PoolView {
                isolates: with_isolate(old(self)@.isolates, id, begun(now)),
                ..old(self)@
            }),
    {
        let ghost before = self@.isolates;
        let ghost target = with_isolate(before, id, begun(now));
        let mut i: usize = 0;
        while i < self.isolates.len()
            invariant
                i <= self.isolates.len(),
                before == old(self)@.isolates,
                before.len() == self.isolates.len(),
                target == with_isolate(before, id, begun(now)),
                self@ == (PoolView { isolates: self@.isolates, ..old(self)@ }),
                forall|j: int| 0 <= j < i ==> #[trigger] self@.isolates[j] == target[j],
                forall|j: int|
                    i <= j < before.len() ==> #[trigger] self@.isolates[j] == before[j],
                forall|j: int|
                    0 <= j < before.len() && (#[trigger] before[j]).id == id
                        ==> before[j].total_requests < u64::MAX,
            decreases self.isolates.len() - i,
        {
            let ghost prev = self@.isolates;
            assert(prev[i as int] == before[i as int]);
            if self.isolates[i].id == id {
                self.isolates[i].locked = true;
                self.isolates[i].last_used = now;
                self.isolates[i].total_requests = self.isolates[i].total_requests + 1;
            }
            assert(self@.isolates =~= prev.update(i as int, target[i as int]));
            i += 1;
        }
        assert(self@.isolates =~= target);
        assert forall|a: int, b: int| 0 <= a < b < target.len() implies (#[trigger] target[a]).id
            != (#[trigger] target[b]).id by {
            assert(before[a].id != before[b].id);
        }
    }

    /// The request that held the isolate `id` is done with it. Returns whether a waiting
    /// request has to be woken.
    pub fn finish_request(&mut self, id: u64) -> (wake: bool)
        requires
            old(self)@.wf(),
        ensures
            final(self)@.wf(),
            final(self)@ == (PoolView {
                isolates: with_isolate(old(self)@.isolates, id, given_back()),
                ..old(self)@
            }),
            wake == (old(self).current_waiters > 0),
    {
        let ghost before = self@.isolates;
        let ghost target = with_isolate(before, id, given_back());
        let mut i: usize = 0;
        while i < self.isolates.len()
            invariant
                i <= self.isolates.len(),
                before == old(self)@.isolates,
                before.len() == self.isolates.len(),
                target == with_isolate(before, id, given_back()),
                self@ == (PoolView { isolates: self@.isolates, ..old(self)@ }),
                forall|j: int| 0 <= j < i ==> #[trigger] self@.isolates[j] == target[j],
                forall|j: int|
                    i <= j < before.len() ==> #[trigger] self@.isolates[j] == before[j],
            decreases self.isolates.len() - i,
        {
            let ghost prev = self@.isolates;
            assert(prev[i as int] == before[i as int]);
            if self.isolates[i].id == id {
                self.isolates[i].locked = false;
                self.isolates[i].release();
            }
            assert(self@.isolates =~= prev.update(i as int, target[i as int]));
            i += 1;
        }
        assert(self@.isolates =~= target);
        assert forall|a: int, b: int| 0 <= a < b < target.len() implies (#[trigger] target[a]).id
            != (#[trigger] target[b]).id by {
            assert(before[a].id != before[b].id);
        }
        self.signal_release()
    }
}

/// Creates the thread's pool from the settings unless it exists.
pub fn ensure_pool_initialized(slot: &mut Option<ThreadLocalPool>, config: &PinnedPoolConfig)
    requires
        *old(slot) matches Some(p) ==> p@.wf(),
    ensures
        match *old(slot) {
            Some(p) => *final(slot) == Some(p),
            None => *final(slot) matches Some(p) && p@ == (PoolView {
                isolates: Seq::empty(),
                next_id: 0,
                max_isolates: config.max_per_thread,
                max_per_owner: config.max_per_owner,
                queue_size: config.queue_size,
                current_waiters: 0,
            }),
        },
        *final(slot) matches Some(p) && p@.wf(),
{
    if slot.is_none() {
        *slot = Some(
            ThreadLocalPool::new(config.max_per_thread, config.max_per_owner, config.queue_size),
        );
    }
}

/// Finds an isolate for a request of `owner_id` at `now` in the thread's pool.
pub fn acquire_from_local_pool(
    slot: &mut Option<ThreadLocalPool>,
    owner_id: &str,
    now: u64,
) -> (r: Option<AcquireResult>)
    requires
        *old(slot) matches Some(p) && p@.wf() && p.next_id < u64::MAX,
    ensures
        *final(slot) matches Some(p) && p@.wf() && p@ == old(slot)->0@.acquire(owner_id@, now).0,
        match r {
            Some(a) => old(slot)->0@.acquire(owner_id@, now).1 == Some(a@),
            None => old(slot)->0@.acquire(owner_id@, now).1 is None,
        },
{
    match slot {
        Some(pool) => pool.acquire(owner_id, now),
        None => None,
    }
}

/// Joins the queue of the thread's pool unless it is full; returns whether there was room.
pub fn try_enter_queue(slot: &mut Option<ThreadLocalPool>) -> (r: bool)
    requires
        *old(slot) matches Some(p) && p@.wf(),
    ensures
        r == (old(slot)->0.current_waiters < old(slot)->0.queue_size),
        *final(slot) matches Some(p) && p@.wf() && p@ == (PoolView {
            current_waiters: if r {
                (old(slot)->0.current_waiters + 1) as usize
            } else {
                old(slot)->0.current_waiters
            },
            ..old(slot)->0@
        }),
{
    match slot {
        Some(pool) => pool.try_enter_queue(),
        None => false,
    }
}

/// Leaves the queue of the thread's pool.
pub fn leave_queue(slot: &mut Option<ThreadLocalPool>)
    requires
        *old(slot) matches Some(p) && p@.wf(),
    ensures
        *final(slot) matches Some(p) && p@.wf() && p@ == (PoolView {
            current_waiters: if old(slot)->0.current_waiters > 0 {
                (old(slot)->0.current_waiters - 1) as usize
            } else {
                0
            },
            ..old(slot)->0@
        }),
{
    if let Some(pool) = slot {
        pool.leave_queue();
    }
}

/// Gives the isolate `id` back to the thread's pool. Returns whether a waiting request has to
/// be woken.
pub fn release_to_local_pool(slot: &mut Option<ThreadLocalPool>, id: u64) -> (wake: bool)
    requires
        *old(slot) matches Some(p) ==> p@.wf(),
    ensures
        match *old(slot) {
            Some(before) => {
                &&& wake == (before.current_waiters > 0)
                &&& *final(slot) matches Some(p)
                &&& p@.wf()
                &&& p@ == (PoolView {
                    isolates: with_isolate(before@.isolates, id, given_back()),
                    ..before@
                })
            },
            None => !wake && *final(slot) is None,
        },
{
    match slot {
        Some(pool) => pool.finish_request(id),
        None => false,
    }
}

/// Numbers that describe the thread's pool, once it exists.
pub fn get_local_pool_stats(slot: &Option<ThreadLocalPool>) -> (r: Option<LocalPoolStats>)
    ensures
        match *slot {
            Some(p) => r matches Some(s) && s.total == p@.isolates.len() && s.in_use == busy_count(
                p@.isolates,
            ) && s.capacity == p.max_isolates,
            None => r is None,
        },
{
    match slot {
        Some(pool) => Some(pool.stats()),
        None => None,
    }
}

/// How often requests came and found an isolate of their owner.
#[derive(Debug, Clone, Copy, PartialEq, Eq, Structural)]
pub struct PinnedPoolCounters {
    pub total_requests: usize,
    pub cache_hits: usize,
    pub cache_misses: usize,
}

impl PinnedPoolCounters {
    /// Counters at zero.
    pub fn new() -> (r: Self)
        ensures
            r == (PinnedPoolCounters { total_requests: 0, cache_hits: 0, cache_misses: 0 }),
    {
        PinnedPoolCounters { total_requests: 0, cache_hits: 0, cache_misses: 0 }
    }

    /// Counts a request; wraps around at the largest number.
    pub fn count_request(&mut self)
        ensures
            *final(self) == (PinnedPoolCounters {
                total_requests: if old(self).total_requests == usize::MAX {
                    0
                } else {
                    (old(self).total_requests + 1) as usize
                },
                ..*old(self)
            }),
    {
        self.total_requests = self.total_requests.wrapping_add(1);
    }

    /// Counts how a request got its isolate; wraps around at the largest number.
    pub fn count_acquired(&mut self, cache_hit: bool)
        ensures
            final(self).total_requests == old(self).total_requests,
            final(self).cache_hits == (if !cache_hit {
                old(self).cache_hits as int
            } else if old(self).cache_hits == usize::MAX {
                0
            } else {
                old(self).cache_hits + 1
            }),
            final(self).cache_misses == (if cache_hit {
                old(self).cache_misses as int
            } else if old(self).cache_misses == usize::MAX {
                0
            } else {
                old(self).cache_misses + 1
            }),
    {
        if cache_hit {
            self.cache_hits = self.cache_hits.wrapping_add(1);
        } else {
            self.cache_misses = self.cache_misses.wrapping_add(1);
        }
    }
}

/// What a request has to do next.
#[derive(Debug)]
pub enum PinnedStep {
    /// Work on the isolate.
    Run(AcquireResult),
    /// Wait for a release, for no longer than this many nanoseconds, and report how the wait
    /// ended to [`after_wait`].
    Wait(u128),
    /// Give up.
    Fail(TerminationReason),
}

/// What a request has to do next.
pub enum StepView {
    Run(AcquireView),
    Wait(int),
    Fail(ReasonView),
}

impl View for PinnedStep {
    type V = StepView;

    open spec fn view(&self) -> StepView {
        match self {
            PinnedStep::Run(a) => StepView::Run(a@),
            PinnedStep::Wait(ns) => StepView::Wait(*ns as int),
            PinnedStep::Fail(e) => StepView::Fail(e@),
        }
    }
}

/// How a wait in the queue ended.
#[derive(Debug, Clone, Copy, PartialEq, Eq, Structural)]
pub enum WaitOutcome {
    /// A released isolate woke the request.
    Woken,
    /// Nothing can wake the request any more.
    Closed,
    /// The time was up.
    TimedOut,
}

/// A timeout of `ms` milliseconds in nanoseconds.
pub open spec fn timeout_ns(ms: u64) -> int {
    ms * 1_000_000
}

/// Decides how a request of `owner_id` goes on that has been under way for `elapsed_ns`: it
/// runs where the pool has an isolate for it, gives up where the queue is full or its time is
/// over, and joins the queue otherwise.
pub fn next_step(
    pool: &mut ThreadLocalPool,
    owner_id: &str,
    now: u64,
    elapsed_ns: u128,
    timeout_ms: u64,
) -> (r: PinnedStep)
    requires
        old(pool)@.wf(),
        old(pool).next_id < u64::MAX,
    ensures
        final(pool)@.wf(),
        (final(pool)@, r@) == old(pool)@.step(owner_id@, now, elapsed_ns, timeout_ms),
        match old(pool)@.acquire(owner_id@, now).1 {
            Some(a) => {
                &&& r matches PinnedStep::Run(got)
                &&& got@ == a
                &&& final(pool)@ == old(pool)@.acquire(owner_id@, now).0
            },
            None => if old(pool).current_waiters >= old(pool).queue_size {
                &&& r matches PinnedStep::Fail(e)
                &&& e@ == ReasonView::Other(QUEUE_FULL_ERROR@)
                &&& final(pool)@ == old(pool)@
            } else if elapsed_ns >= timeout_ns(timeout_ms) {
                &&& r matches PinnedStep::Fail(e)
                &&& e@ == ReasonView::Other(QUEUE_TIMEOUT_ERROR@)
                &&& final(pool)@ == old(pool)@
            } else {
                &&& r matches PinnedStep::Wait(ns)
                &&& ns == timeout_ns(timeout_ms) - elapsed_ns
                &&& final(pool)@ == (PoolView {
                    current_waiters: (old(pool).current_waiters + 1) as usize,
                    ..old(pool)@
                })
            },
        },
{
    if let Some(got) = pool.acquire(owner_id, now) {
        return PinnedStep::Run(got);
    }
    if !pool.try_enter_queue() {
        return PinnedStep::Fail(TerminationReason::Other(QUEUE_FULL_ERROR.to_string()));
    }
    let timeout: u128 = timeout_ms as u128 * 1_000_000;
    if elapsed_ns >= timeout {
        pool.leave_queue();
        return PinnedStep::Fail(TerminationReason::Other(QUEUE_TIMEOUT_ERROR.to_string()));
    }
    PinnedStep::Wait(timeout - elapsed_ns)
}

/// Why a request gives up after its wait, unless it tries again.
pub open spec fn wait_failure(outcome: WaitOutcome) -> Option<ReasonView> {
    match outcome {
        WaitOutcome::Woken => None,
        WaitOutcome::Closed => Some(ReasonView::Other(QUEUE_INTERNAL_ERROR@)),
        WaitOutcome::TimedOut => Some(ReasonView::Other(QUEUE_TIMEOUT_ERROR@)),
    }
}

/// Takes a request out of the queue after its wait. A request that was woken tries again
/// (`None`); any other gives up.
pub fn after_wait(pool: &mut ThreadLocalPool, outcome: WaitOutcome) -> (r: Option<
    TerminationReason,
>)
    requires
        old(pool)@.wf(),
    ensures
        final(pool)@.wf(),
        final(pool)@ == old(pool)@.left(),
        match r {
            Some(e) => wait_failure(outcome) == Some(e@),
            None => wait_failure(outcome) is None,
        },
        final(pool)@ == (PoolView {
            current_waiters: if old(pool).current_waiters > 0 {
                (old(pool).current_waiters - 1) as usize
            } else {
                0
            },
            ..old(pool)@
        }),
        match outcome {
            WaitOutcome::Woken => r is None,
            WaitOutcome::Closed => r matches Some(e) && e@ == ReasonView::Other(
                QUEUE_INTERNAL_ERROR@,
            ),
            WaitOutcome::TimedOut => r matches Some(e) && e@ == ReasonView::Other(
                QUEUE_TIMEOUT_ERROR@,
            ),
        },
{
    pool.leave_queue();
    match outcome {
        WaitOutcome::Woken => None,
        WaitOutcome::Closed => Some(TerminationReason::Other(QUEUE_INTERNAL_ERROR.to_string())),
        WaitOutcome::TimedOut => Some(TerminationReason::Other(QUEUE_TIMEOUT_ERROR.to_string())),
    }
}

/// Adding an isolate adds to the count of its owner only.
proof fn owned_count_push(s: Seq<IsolateView>, t: IsolateView, owner: Seq<char>)
    ensures
        owned_count(s.push(t), owner) == owned_count(s, owner) + (if t.owner_id == owner {
            1nat
        } else {
            0nat
        }),
{
    assert(s.push(t).drop_last() =~= s);
}

/// Changing an isolate without changing its owner keeps every count.
proof fn owned_count_update(s: Seq<IsolateView>, i: int, t: IsolateView, owner: Seq<char>)
    requires
        0 <= i < s.len(),
        t.owner_id == s[i].owner_id,
    ensures
        owned_count(s.update(i, t), owner) == owned_count(s, owner),
    decreases s.len(),
{
    let u = s.update(i, t);
    if i == s.len() - 1 {
        assert(u.drop_last() =~= s.drop_last());
    } else {
        assert(u.drop_last() =~= s.drop_last().update(i, t));
        owned_count_update(s.drop_last(), i, t, owner);
    }
}

/// Removing an isolate takes it off the count of its owner only.
proof fn owned_count_remove(s: Seq<IsolateView>, i: int, owner: Seq<char>)
    requires
        0 <= i < s.len(),
    ensures
        owned_count(s, owner) == owned_count(s.remove(i), owner) + (if s[i].owner_id == owner {
            1nat
        } else {
            0nat
        }),
    decreases s.len(),
{
    let u = s.remove(i);
    if i == s.len() - 1 {
        assert(u =~= s.drop_last());
    } else {
        assert(u.drop_last() =~= s.drop_last().remove(i));
        owned_count_remove(s.drop_last(), i, owner);
    }
}

/// A request only ever gets an isolate of its own owner, one that nobody held: either one
/// that was free before, or a new one.
pub proof fn acquire_isolates_owners(p: PoolView, owner: Seq<char>, now: u64)
    requires
        p.wf(),
        p.next_id < u64::MAX,
        p.acquire(owner, now).1 is Some,
    ensures
        ({
            let (after, got) = p.acquire(owner, now);
            let a = got->0;
            &&& exists|i: int|
                0 <= i < after.isolates.len() && (#[trigger] after.isolates[i]).id == a.isolate
                    && after.isolates[i].owner_id == owner && after.isolates[i].in_use
            &&& a.cache_hit ==> exists|i: int|
                0 <= i < p.isolates.len() && (#[trigger] p.isolates[i]).id == a.isolate
                    && p.isolates[i].owner_id == owner && !p.isolates[i].in_use
            &&& !a.cache_hit ==> forall|i: int|
                0 <= i < p.isolates.len() ==> (#[trigger] p.isolates[i]).id != a.isolate
        }),
{
    let (after, got) = p.acquire(owner, now);
    match first_free(p.isolates, owner) {
        Some(i) => {
            assert(is_first_free(p.isolates, owner, i));
            assert(after.isolates[i].id == got->0.isolate);
        },
        None => {
            let last = after.isolates.len() - 1;
            assert(after.isolates[last].id == got->0.isolate);
        },
    }
}

/// No request takes away an isolate that another one holds.
pub proof fn acquire_spares_busy_isolates(p: PoolView, owner: Seq<char>, now: u64, i: int)
    requires
        p.wf(),
        0 <= i < p.isolates.len(),
        p.isolates[i].in_use,
    ensures
        p.acquire(owner, now).0.isolates.contains(p.isolates[i]),
{
    let after = p.acquire(owner, now).0;
    match first_free(p.isolates, owner) {
        Some(k) => {
            assert(is_first_free(p.isolates, owner, k));
            assert(after.isolates[i] == p.isolates[i]);
        },
        None => {
            if !p.owner_at_limit(owner) && p.isolates.len() >= p.max_isolates && lru(
                p.isolates,
                now,
            ) is Some {
                let k = lru(p.isolates, now)->0;
                assert(is_lru(p.isolates, now, k));
                if i < k {
                    assert(after.isolates[i] == p.isolates[i]);
                } else {
                    assert(after.isolates[i - 1] == p.isolates[i]);
                }
            } else {
                assert(after.isolates[i] == p.isolates[i]);
            }
        },
    }
}

/// No owner comes to have more isolates than its limit by a request, whoever makes it.
pub proof fn acquire_keeps_owner_limit(
    p: PoolView,
    owner: Seq<char>,
    now: u64,
    limit: usize,
    other: Seq<char>,
)
    requires
        p.max_per_owner == Some(limit),
        owned_count(p.isolates, other) <= limit,
    ensures
        owned_count(p.acquire(owner, now).0.isolates, other) <= limit,
{
    let after = p.acquire(owner, now).0;
    let new = IsolateView { in_use: true, ..fresh_isolate(p.next_id, owner, now) };
    match first_free(p.isolates, owner) {
        Some(i) => {
            assert(is_first_free(p.isolates, owner, i));
            owned_count_update(
                p.isolates,
                i,
                IsolateView { in_use: true, ..p.isolates[i] },
                other,
            );
        },
        None => {
            if !p.owner_at_limit(owner) {
                owned_count_push(p.isolates, new, other);
                if p.isolates.len() >= p.max_isolates && lru(p.isolates, now) is Some {
                    let k = lru(p.isolates, now)->0;
                    assert(is_lru(p.isolates, now, k));
                    owned_count_remove(p.isolates, k, other);
                    owned_count_push(p.isolates.remove(k), new, other);
                }
            }
        },
    }
}

/// A request makes the pool larger than it is meant to be only where no isolate could make
/// room.
pub proof fn acquire_overcommits_only_when_busy(p: PoolView, owner: Seq<char>, now: u64)
    ensures
        p.acquire(owner, now).0.isolates.len() <= p.isolates.len() + 1,
        p.acquire(owner, now).0.isolates.len() > p.isolates.len() && p.isolates.len()
            >= p.max_isolates ==> forall|i: int|
            0 <= i < p.isolates.len() ==> !evictable(#[trigger] p.isolates[i], now),
{
    if first_free(p.isolates, owner) is Some {
        let k = first_free(p.isolates, owner)->0;
        assert(is_first_free(p.isolates, owner, k));
    } else if lru(p.isolates, now) is Some {
        let k = lru(p.isolates, now)->0;
        assert(is_lru(p.isolates, now, k));
    } else {
        oldest_exists(p.isolates, now, p.isolates.len() as int);
    }
}

/// Where any of the first `n` isolates may make room, one of them has been idle longest.
proof fn oldest_exists(s: Seq<IsolateView>, now: u64, n: int)
    requires
        0 <= n <= s.len(),
    ensures
        (exists|i: int| 0 <= i < n && evictable(#[trigger] s[i], now)) ==> exists|i: int|
            is_lru(s.take(n), now, i),
        n == s.len() && (exists|i: int| 0 <= i < n && evictable(#[trigger] s[i], now)) ==> lru(
            s,
            now,
        ) is Some,
    decreases n,
{
    if n > 0 {
        oldest_exists(s, now, n - 1);
        let t = s.take(n);
        let u = s.take(n - 1);
        if exists|i: int| is_lru(u, now, i) {
            let i = choose|i: int| is_lru(u, now, i);
            assert forall|j: int| 0 <= j < n - 1 implies t[j] == #[trigger] u[j] by {}
            if evictable(t[n - 1], now) && t[n - 1].last_used < t[i].last_used {
                assert forall|j: int| 0 <= j < n - 1 && evictable(#[trigger] t[j], now) implies t[n
                    - 1].last_used < t[j].last_used by {
                    assert(evictable(u[j], now));
                }
                assert(is_lru(t, now, n - 1));
            } else {
                assert forall|j: int| 0 <= j < n && evictable(#[trigger] t[j], now) implies t[i].last_used
                    <= t[j].last_used by {
                    if j < n - 1 {
                        assert(evictable(u[j], now));
                    }
                }
                assert forall|j: int| 0 <= j < i && evictable(#[trigger] t[j], now) implies t[i].last_used
                    < t[j].last_used by {
                    assert(evictable(u[j], now));
                }
                assert(is_lru(t, now, i));
            }
        } else {
            if evictable(s[n - 1], now) {
                assert forall|j: int| 0 <= j < n - 1 implies !evictable(#[trigger] t[j], now) by {
                    assert(t[j] == s[j]);
                }
                assert(t[n - 1] == s[n - 1]);
                assert(is_lru(t, now, n - 1));
            }
        }
        if n == s.len() {
            assert(s.take(n) =~= s);
        }
    }
}

/// Giving an isolate back right after it was found free leaves the pool as it was.
pub proof fn release_undoes_reuse(p: PoolView, owner: Seq<char>, now: u64)
    requires
        p.wf(),
        p.acquire(owner, now).1 matches Some(a) && a.cache_hit,
        forall|i: int| 0 <= i < p.isolates.len() && !(#[trigger] p.isolates[i]).in_use ==> !p.isolates[i].locked,
    ensures
        with_isolate(
            p.acquire(owner, now).0.isolates,
            p.acquire(owner, now).1->0.isolate,
            given_back(),
        ) == p.isolates,
{
    let (after, got) = p.acquire(owner, now);
    let i = first_free(p.isolates, owner)->0;
    assert(is_first_free(p.isolates, owner, i));
    let restored = with_isolate(after.isolates, got->0.isolate, given_back());
    assert forall|j: int| 0 <= j < restored.len() implies restored[j] == #[trigger] p.isolates[j] by {
        if j < i {
            assert(p.isolates[j].id != p.isolates[i].id);
        } else if i < j {
            assert(p.isolates[i].id != p.isolates[j].id);
        }
    }
    assert(restored =~= p.isolates);
}

/// Cleaning up removes no isolate that is in use.
pub proof fn cleanup_spares_busy_isolates(s: Seq<IsolateView>, k: int, t: IsolateView)
    requires
        s.contains(t),
        t.in_use,
    ensures
        drop_free(s, k).contains(t),
    decreases s.len(),
{
    if s.len() > 0 && k > 0 {
        let i = choose|i: int| 0 <= i < s.len() && s[i] == t;
        let rest = s.skip(1);
        if i > 0 {
            assert(rest[i - 1] == t);
            if s[0].in_use {
                cleanup_spares_busy_isolates(rest, k, t);
                let d = drop_free(rest, k);
                let m = choose|m: int| 0 <= m < d.len() && d[m] == t;
                assert((seq![s[0]] + d)[m + 1] == t);
            } else {
                cleanup_spares_busy_isolates(rest, k - 1, t);
            }
        } else {
            assert((seq![s[0]] + drop_free(rest, k))[0] == t);
        }
    }
}

/// Cleaning up never removes more than the excess, and removes all of it where enough
/// isolates are free.
pub proof fn cleanup_removes_the_excess(s: Seq<IsolateView>, k: int)
    requires
        0 <= k,
    ensures
        drop_free(s, k).len() == s.len() - (if k <= s.len() - busy_count(s) {
            k
        } else {
            s.len() - busy_count(s)
        }),
        busy_count(s) <= s.len(),
    decreases s.len(),
{
    busy_count_bound(s);
    if s.len() > 0 && k > 0 {
        busy_count_first(s);
        busy_count_bound(s.skip(1));
        if s[0].in_use {
            cleanup_removes_the_excess(s.skip(1), k);
        } else {
            cleanup_removes_the_excess(s.skip(1), k - 1);
        }
    }
}

/// No more isolates are busy than there are.
proof fn busy_count_bound(s: Seq<IsolateView>)
    ensures
        busy_count(s) <= s.len(),
    decreases s.len(),
{
    if s.len() > 0 {
        busy_count_bound(s.drop_last());
    }
}

/// The busy isolates are the first one, where it is busy, and those behind it.
proof fn busy_count_first(s: Seq<IsolateView>)
    requires
        s.len() > 0,
    ensures
        busy_count(s) == busy_count(s.skip(1)) + (if s[0].in_use {
            1nat
        } else {
            0nat
        }),
    decreases s.len(),
{
    if s.len() > 1 {
        busy_count_first(s.drop_last());
        assert(s.drop_last().skip(1) =~= s.skip(1).drop_last());
    } else {
        assert(s.drop_last() =~= Seq::empty());
        assert(s.skip(1) =~= Seq::empty());
    }
}

/// The isolates of an owner, counted one after the other, are all of them.
proof fn owned_count_is_filter(s: Seq<IsolateView>, owner: Seq<char>)
    ensures
        owned_count(s, owner) == s.filter(|t: IsolateView| t.owner_id == owner).len(),
    decreases s.len(),
{
    reveal(Seq::filter);
    if s.len() > 0 {
        owned_count_is_filter(s.drop_last(), owner);
    }
}

/// The busy isolates, counted one after the other, are all of them.
proof fn busy_count_is_filter(s: Seq<IsolateView>)
    ensures
        busy_count(s) == s.filter(|t: IsolateView| t.in_use).len(),
    decreases s.len(),
{
    reveal(Seq::filter);
    if s.len() > 0 {
        busy_count_is_filter(s.drop_last());
    }
}

/// Where an isolate of `owner` is free, one of them is the first.
proof fn first_free_exists(s: Seq<IsolateView>, owner: Seq<char>, i: int)
    requires
        0 <= i < s.len(),
        s[i].owner_id == owner,
        !s[i].in_use,
    ensures
        first_free(s, owner) is Some,
    decreases i,
{
    if exists|j: int| 0 <= j < i && (#[trigger] s[j]).owner_id == owner && !s[j].in_use {
        let j = choose|j: int|
            0 <= j < i && (#[trigger] s[j]).owner_id == owner && !s[j].in_use;
        first_free_exists(s, owner, j);
    } else {
        assert(is_first_free(s, owner, i));
    }
}

/// The numbers that describe a pool are numbers of isolates: an owner has as many as are tagged
/// with it, free or not, and as many are busy as a request holds. An owner is at its limit where
/// there is a limit that is no larger than what it has.
pub proof fn counts_are_numbers_of_isolates(p: PoolView, owner: Seq<char>)
    ensures
        owned_count(p.isolates, owner) == p.isolates.filter(
            |t: IsolateView| t.owner_id == owner,
        ).len(),
        busy_count(p.isolates) == p.isolates.filter(|t: IsolateView| t.in_use).len(),
        p.owner_at_limit(owner) <==> p.max_per_owner is Some && p.isolates.filter(
            |t: IsolateView| t.owner_id == owner,
        ).len() >= p.max_per_owner->0,
{
    owned_count_is_filter(p.isolates, owner);
    busy_count_is_filter(p.isolates);
}

/// A request gets nothing exactly where no isolate of its owner is free, there is a limit per
/// owner, and the owner has as many isolates as that or more. Then nothing changes.
pub proof fn acquire_refuses_at_the_limit(p: PoolView, owner: Seq<char>, now: u64)
    ensures
        p.acquire(owner, now).1 is None <==> {
            &&& forall|i: int|
                0 <= i < p.isolates.len() && (#[trigger] p.isolates[i]).owner_id == owner
                    ==> p.isolates[i].in_use
            &&& p.max_per_owner is Some
            &&& p.isolates.filter(|t: IsolateView| t.owner_id == owner).len()
                >= p.max_per_owner->0
        },
        p.acquire(owner, now).1 is None ==> p.acquire(owner, now).0 == p,
{
    owned_count_is_filter(p.isolates, owner);
    if first_free(p.isolates, owner) is Some {
        let i = first_free(p.isolates, owner)->0;
        assert(is_first_free(p.isolates, owner, i));
        assert(p.isolates[i].owner_id == owner && !p.isolates[i].in_use);
    } else {
        assert forall|i: int|
            0 <= i < p.isolates.len() && (#[trigger] p.isolates[i]).owner_id == owner implies
            p.isolates[i].in_use by {
            if !p.isolates[i].in_use {
                first_free_exists(p.isolates, owner, i);
            }
        }
    }
}

/// The first free isolate of its owner is what a request gets, and nothing else changes: none is
/// made, none makes room, and of this one only that it is held.
pub proof fn acquire_reuses_the_first_free(p: PoolView, owner: Seq<char>, now: u64, i: int)
    requires
        0 <= i < p.isolates.len(),
        p.isolates[i].owner_id == owner,
        !p.isolates[i].in_use,
        forall|j: int|
            0 <= j < i ==> (#[trigger] p.isolates[j]).owner_id != owner || p.isolates[j].in_use,
    ensures
        ({
            let (after, got) = p.acquire(owner, now);
            &&& got is Some
            &&& got->0.isolate == p.isolates[i].id
            &&& got->0.cache_hit
            &&& got->0.evicted is None
            &&& got->0.evicted_isolate is None
            &&& after.isolates.len() == p.isolates.len()
            &&& forall|j: int|
                0 <= j < p.isolates.len() && j != i ==> #[trigger] after.isolates[j]
                    == p.isolates[j]
            &&& after.isolates[i] == (IsolateView { in_use: true, ..p.isolates[i] })
            &&& after == (PoolView { isolates: after.isolates, ..p })
        }),
{
    first_free_unique(p.isolates, owner, i);
}

/// Whether a request of `owner` needs a new isolate and may have one: no isolate of the owner is
/// free, and the owner has fewer than its limit.
spec fn needs_new(p: PoolView, owner: Seq<char>) -> bool {
    &&& forall|i: int|
        0 <= i < p.isolates.len() && (#[trigger] p.isolates[i]).owner_id == owner
            ==> p.isolates[i].in_use
    &&& p.max_per_owner is Some ==> p.isolates.filter(|t: IsolateView| t.owner_id == owner).len()
        < p.max_per_owner->0
}

/// Such a request finds nothing to reuse and is not refused.
proof fn new_is_made(p: PoolView, owner: Seq<char>)
    requires
        needs_new(p, owner),
    ensures
        first_free(p.isolates, owner) is None,
        !p.owner_at_limit(owner),
{
    owned_count_is_filter(p.isolates, owner);
    if first_free(p.isolates, owner) is Some {
        let i = first_free(p.isolates, owner)->0;
        assert(is_first_free(p.isolates, owner, i));
        assert(p.isolates[i].in_use);
    }
}

/// An owner below its limit that has no free isolate gets a new one where the pool has room: the
/// new isolate comes last, is held by the request, has served nobody, and has the next number.
/// Nothing makes room for it.
pub proof fn acquire_grows_a_pool_with_room(p: PoolView, owner: Seq<char>, now: u64)
    requires
        p.next_id < u64::MAX,
        forall|i: int|
            0 <= i < p.isolates.len() && (#[trigger] p.isolates[i]).owner_id == owner
                ==> p.isolates[i].in_use,
        p.max_per_owner is Some ==> p.isolates.filter(
            |t: IsolateView| t.owner_id == owner,
        ).len() < p.max_per_owner->0,
        p.isolates.len() < p.max_isolates,
    ensures
        ({
            let (after, got) = p.acquire(owner, now);
            &&& got is Some
            &&& got->0.isolate == p.next_id
            &&& !got->0.cache_hit
            &&& got->0.evicted is None
            &&& got->0.evicted_isolate is None
            &&& after.isolates == p.isolates.push(
                IsolateView {
                    id: p.next_id,
                    owner_id: owner,
                    in_use: true,
                    locked: false,
                    last_used: now,
                    total_requests: 0,
                },
            )
            &&& after.next_id == p.next_id + 1
            &&& after == (PoolView { isolates: after.isolates, next_id: after.next_id, ..p })
        }),
{
    new_is_made(p, owner);
}

/// In a full pool the isolate `i` makes room: it is the one, among those that nobody holds or
/// works on and that were last used before, that was used the longest ago, and the first of
/// several. The request learns of it, and gets a new isolate behind those that are left.
pub proof fn acquire_evicts_the_longest_idle(p: PoolView, owner: Seq<char>, now: u64, i: int)
    requires
        p.next_id < u64::MAX,
        forall|j: int|
            0 <= j < p.isolates.len() && (#[trigger] p.isolates[j]).owner_id == owner
                ==> p.isolates[j].in_use,
        p.max_per_owner is Some ==> p.isolates.filter(
            |t: IsolateView| t.owner_id == owner,
        ).len() < p.max_per_owner->0,
        p.isolates.len() >= p.max_isolates,
        0 <= i < p.isolates.len(),
        !p.isolates[i].in_use && !p.isolates[i].locked && p.isolates[i].last_used < now,
        forall|j: int|
            0 <= j < p.isolates.len() && !(#[trigger] p.isolates[j]).in_use && !p.isolates[j].locked
                ==> p.isolates[i].last_used <= p.isolates[j].last_used,
        forall|j: int|
            0 <= j < i && !(#[trigger] p.isolates[j]).in_use && !p.isolates[j].locked
                ==> p.isolates[i].last_used < p.isolates[j].last_used,
    ensures
        ({
            let (after, got) = p.acquire(owner, now);
            &&& got is Some
            &&& got->0.isolate == p.next_id
            &&& !got->0.cache_hit
            &&& got->0.evicted == Some(p.isolates[i].owner_id)
            &&& got->0.evicted_isolate == Some(p.isolates[i].id)
            &&& after.isolates == p.isolates.remove(i).push(
                IsolateView {
                    id: p.next_id,
                    owner_id: owner,
                    in_use: true,
                    locked: false,
                    last_used: now,
                    total_requests: 0,
                },
            )
            &&& after.next_id == p.next_id + 1
            &&& after == (PoolView { isolates: after.isolates, next_id: after.next_id, ..p })
        }),
{
    new_is_made(p, owner);
    assert(is_lru(p.isolates, now, i));
    lru_unique(p.isolates, now, i);
}

/// A full pool in which every isolate is held, worked on or was used at this very moment grows
/// past its size rather than refuse a request, and nothing makes room.
pub proof fn acquire_grows_a_busy_pool(p: PoolView, owner: Seq<char>, now: u64)
    requires
        p.next_id < u64::MAX,
        forall|j: int|
            0 <= j < p.isolates.len() && (#[trigger] p.isolates[j]).owner_id == owner
                ==> p.isolates[j].in_use,
        p.max_per_owner is Some ==> p.isolates.filter(
            |t: IsolateView| t.owner_id == owner,
        ).len() < p.max_per_owner->0,
        p.isolates.len() >= p.max_isolates,
        forall|j: int|
            0 <= j < p.isolates.len() ==> (#[trigger] p.isolates[j]).in_use || p.isolates[j].locked
                || p.isolates[j].last_used >= now,
    ensures
        ({
            let (after, got) = p.acquire(owner, now);
            &&& got is Some
            &&& got->0.isolate == p.next_id
            &&& !got->0.cache_hit
            &&& got->0.evicted is None
            &&& got->0.evicted_isolate is None
            &&& after.isolates == p.isolates.push(
                IsolateView {
                    id: p.next_id,
                    owner_id: owner,
                    in_use: true,
                    locked: false,
                    last_used: now,
                    total_requests: 0,
                },
            )
            &&& after.next_id == p.next_id + 1
            &&& after == (PoolView { isolates: after.isolates, next_id: after.next_id, ..p })
        }),
{
    new_is_made(p, owner);
    lru_absent(p.isolates, now);
}

/// An isolate is made free and unlocked, has served nobody, and counts as used when it was made.
pub proof fn new_isolate_is_free(id: u64, owner: Seq<char>, now: u64)
    ensures
        ({
            let t = fresh_isolate(id, owner, now);
            &&& t.id == id && t.owner_id == owner
            &&& !t.in_use && !t.locked
            &&& t.last_used == now && t.total_requests == 0
        }),
{
}

/// A request marks the isolate that it works on, and that one only: the isolate is locked, was
/// used now, and has served one more request. Giving it back unlocks and frees it, and keeps when
/// it was used and how many requests it has served.
pub proof fn requests_mark_their_isolate(s: Seq<IsolateView>, id: u64, now: u64, i: int)
    requires
        0 <= i < s.len(),
        s[i].total_requests < u64::MAX,
    ensures
        ({
            let working = with_isolate(s, id, begun(now));
            let done = with_isolate(working, id, given_back());
            &&& working.len() == s.len() && done.len() == s.len()
            &&& s[i].id != id ==> working[i] == s[i] && done[i] == s[i]
            &&& s[i].id == id ==> {
                &&& working[i].id == id && working[i].owner_id == s[i].owner_id
                &&& working[i].locked && working[i].in_use == s[i].in_use
                &&& working[i].last_used == now
                &&& working[i].total_requests == s[i].total_requests + 1
                &&& done[i].id == id && done[i].owner_id == s[i].owner_id
                &&& !done[i].locked && !done[i].in_use
                &&& done[i].last_used == now
                &&& done[i].total_requests == s[i].total_requests + 1
            }
        }),
{
}

/// Cleaning up goes through the isolates from the front and stops at some point `m`: before it
/// the busy ones are left, in their order, and from it on all. It stops where as many free ones
/// were passed as there were too many, or at the end.
pub proof fn cleanup_removes_free_ones_from_the_front(s: Seq<IsolateView>, k: int) -> (m: int)
    requires
        0 <= k,
    ensures
        0 <= m <= s.len(),
        drop_free(s, k) == s.take(m).filter(|t: IsolateView| t.in_use) + s.skip(m),
        s.take(m).filter(|t: IsolateView| !t.in_use).len() <= k,
        m < s.len() ==> s.take(m).filter(|t: IsolateView| !t.in_use).len() == k,
    decreases s.len(),
{
    let busy = |t: IsolateView| t.in_use;
    let free = |t: IsolateView| !t.in_use;
    if s.len() == 0 || k == 0 {
        reveal(Seq::filter);
        assert(s.take(0).filter(busy) + s.skip(0) =~= s);
        0
    } else {
        let rest = s.skip(1);
        let head = seq![s[0]];
        let n = cleanup_removes_free_ones_from_the_front(
            rest,
            if s[0].in_use {
                k
            } else {
                k - 1
            },
        );
        let m = n + 1;
        assert(s.take(m) =~= head + rest.take(n));
        assert(s.skip(m) =~= rest.skip(n));
        Seq::filter_distributes_over_add(head, rest.take(n), busy);
        Seq::filter_distributes_over_add(head, rest.take(n), free);
        assert(head.filter(busy) =~= (if s[0].in_use {
            head
        } else {
            seq![]
        }) && head.filter(free) =~= (if s[0].in_use {
            seq![]
        } else {
            head
        })) by {
            reveal_with_fuel(Seq::filter, 2);
            assert(head.drop_last() =~= seq![]);
            assert(head.last() == s[0]);
        }
        assert(drop_free(s, k) =~= s.take(m).filter(busy) + s.skip(m));
        m
    }
}

/// A request waits in the queue for as many millions of nanoseconds as it has milliseconds.
pub proof fn queue_time_is_in_nanoseconds(ms: u64)
    ensures
        timeout_ns(ms) == ms * 1000 * 1000,
{
}

/// A pool that holds no more isolates than it is meant to loses none when it is cleaned up.
pub proof fn cleanup_spares_a_pool_within_its_size(s: Seq<IsolateView>, k: int)
    requires
        k <= 0,
    ensures
        drop_free(s, k) == s,
{
}

/// What is seen of an isolate, of a pool and of an acquisition is what they hold.
pub proof fn views_show_what_is_held(
    t: TaggedIsolate,
    p: ThreadLocalPool,
    a: AcquireResult,
    owner: String,
    i: int,
)
    ensures
        t@ == (IsolateView {
            id: t.id,
            owner_id: t.owner_id@,
            in_use: t.in_use,
            locked: t.locked,
            last_used: t.last_used,
            total_requests: t.total_requests,
        }),
        p@.isolates.len() == p.isolates@.len(),
        0 <= i < p.isolates@.len() ==> p@.isolates[i] == p.isolates@[i]@,
        p@ == (PoolView {
            isolates: p@.isolates,
            next_id: p.next_id,
            max_isolates: p.max_isolates,
            max_per_owner: p.max_per_owner,
            queue_size: p.queue_size,
            current_waiters: p.current_waiters,
        }),
        a@.isolate == a.isolate,
        a@.cache_hit == a.cache_hit,
        a@.evicted_isolate == a.evicted_isolate,
        a.evicted is None <==> a@.evicted is None,
        a.evicted == Some(owner) ==> a@.evicted == Some(owner@),
{
}

/// The queue never holds more requests than it may: one that finds it full does not join. Joining
/// and leaving again leaves the pool as it was, and neither touches an isolate.
pub proof fn queue_is_bounded(p: PoolView)
    requires
        p.wf(),
    ensures
        p.entered().wf() && p.left().wf(),
        p.current_waiters < p.queue_size ==> p.entered().current_waiters == p.current_waiters + 1
            && p.entered().left() == p,
        p.current_waiters == p.queue_size ==> p.entered() == p,
        p.current_waiters > 0 ==> p.left().current_waiters == p.current_waiters - 1,
        p.current_waiters == 0 ==> p.left() == p,
        p.entered() == (PoolView { current_waiters: p.entered().current_waiters, ..p }),
        p.left() == (PoolView { current_waiters: p.left().current_waiters, ..p }),
{
}

/// A request that gets an isolate runs, however full the queue is and however late it is. One that
/// gets none fails at once where the queue is full, and where its time is over; then nothing
/// changes. Else it waits, for exactly the time that it has left, and the queue is longer by one;
/// once it leaves the queue the pool is as it was.
pub proof fn request_runs_fails_or_waits(
    p: PoolView,
    owner: Seq<char>,
    now: u64,
    elapsed_ns: u128,
    timeout_ms: u64,
)
    ensures
        ({
            let (acquired, got) = p.acquire(owner, now);
            let (after, what) = p.step(owner, now, elapsed_ns, timeout_ms);
            let late = elapsed_ns >= timeout_ms * 1_000_000;
            &&& got is Some ==> what == StepView::Run(got->0) && after == acquired
            &&& got is None && p.current_waiters >= p.queue_size ==> what == StepView::Fail(
                ReasonView::Other("Queue full - service unavailable"@),
            ) && after == p
            &&& got is None && p.current_waiters < p.queue_size && late ==> what == StepView::Fail(
                ReasonView::Other("Queue wait timeout"@),
            ) && after == p
            &&& got is None && p.current_waiters < p.queue_size && !late ==> {
                &&& what is Wait
                &&& what->Wait_0 > 0
                &&& elapsed_ns + what->Wait_0 == timeout_ms * 1_000_000
                &&& after.current_waiters == p.current_waiters + 1
                &&& after.isolates == p.isolates
                &&& after.left() == p
            }
        }),
{
}

/// Only a request that was woken tries again; one whose time was up, or whom nothing can wake any
/// more, gives up, and says which.
pub proof fn woken_requests_try_again(outcome: WaitOutcome)
    ensures
        wait_failure(outcome) is None <==> outcome == WaitOutcome::Woken,
        outcome == WaitOutcome::TimedOut ==> wait_failure(outcome) == Some(
            ReasonView::Other("Queue wait timeout"@),
        ),
        outcome == WaitOutcome::Closed ==> wait_failure(outcome) == Some(
            ReasonView::Other("Internal error"@),
        ),
{
}

} // verus!
