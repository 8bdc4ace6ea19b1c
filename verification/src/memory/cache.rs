//! A bounded cache keyed by strings. Entries expire after a time to live, and
//! when the cache is full the entries with the highest eviction score go
//! first: old entries, entries not read for long, and rarely read entries.
//!
//! Times are nanoseconds since the cache was made. The operations that read
//! the clock (`get`, `insert`, ...) hand the reading to an `_at` twin, which
//! holds the logic and states it for every reading.

use vstd::prelude::*;
use std::time::{Duration, Instant};
use crate::time::{duration_from_secs, duration_nanos_u64, instant_now, nanos_since};

verus! {

/// Limits of a cache.
#[derive(Debug, Clone)]
pub struct CacheConfig {
    /// Maximum number of entries.
    pub max_entries: usize,
    /// Maximum total size of the entries, in bytes.
    pub max_memory_bytes: usize,
    /// How long an entry lives after it was inserted.
    pub ttl: Duration,
    /// Whether memory pressure is watched.
    pub memory_pressure_enabled: bool,
}

impl Default for CacheConfig {
    fn default() -> (c: Self)
        ensures
            c.max_entries == 1000,
            c.max_memory_bytes == 64 * 1024 * 1024,
            crate::time::nanos_of(c.ttl) == 3600 * 1_000_000_000,
            c.memory_pressure_enabled,
    {
        CacheConfig {
            max_entries: 1000,
            max_memory_bytes: 64 * 1024 * 1024,
            ttl: duration_from_secs(3600),
            memory_pressure_enabled: true,
        }
    }
}

/// Counters of a cache.
#[derive(Debug, Clone, Copy)]
pub struct CacheStats {
    pub hits: u64,
    pub misses: u64,
    pub insertions: u64,
    pub evictions: u64,
    pub expirations: u64,
    pub total_memory_bytes: usize,
}

/// All counters at zero.
pub open spec fn zero_stats() -> CacheStats {
    CacheStats { hits: 0, misses: 0, insertions: 0, evictions: 0, expirations: 0, total_memory_bytes: 0 }
}

impl Default for CacheStats {
    fn default() -> (s: Self)
        ensures
            s == zero_stats(),
    {
        CacheStats { hits: 0, misses: 0, insertions: 0, evictions: 0, expirations: 0, total_memory_bytes: 0 }
    }
}

/// A cached value with its bookkeeping; times are clock readings.
#[derive(Debug, Clone)]
pub struct CacheEntry<V> {
    pub value: V,
    pub created_at: u64,
    pub last_accessed: u64,
    pub access_count: u64,
    pub size_bytes: usize,
}

/// Time from `from` to `now`, zero when `now` is earlier.
pub open spec fn elapsed(from: u64, now: u64) -> nat {
    if now >= from {
        (now - from) as nat
    } else {
        0
    }
}

/// An entry is expired when more than `ttl` has passed since it was made.
pub open spec fn expired<V>(e: CacheEntry<V>, ttl: u64, now: u64) -> bool {
    elapsed(e.created_at, now) > ttl
}

/// The eviction score: age plus twice the time since the last read, divided by
/// the number of reads plus one. The higher, the sooner the entry goes.
pub open spec fn score<V>(e: CacheEntry<V>, now: u64) -> nat {
    (elapsed(e.created_at, now) + 2 * elapsed(e.last_accessed, now)) / ((e.access_count + 1) as nat)
}

/// `a - b`, or zero when `b` is larger.
pub open spec fn sat_sub(a: int, b: int) -> int {
    if a >= b {
        a - b
    } else {
        0
    }
}

impl<V> CacheEntry<V> {
    /// A fresh entry made at `now`: read once, at `now`.
    pub fn new(value: V, size_bytes: usize, now: u64) -> (e: Self)
        ensures
            e.value == value,
            e.created_at == now,
            e.last_accessed == now,
            e.access_count == 1,
            e.size_bytes == size_bytes,
    {
        CacheEntry { value, created_at: now, last_accessed: now, access_count: 1, size_bytes }
    }

    /// Records a read at `now`.
    pub fn access(&mut self, now: u64)
        requires
            old(self).access_count < u64::MAX,
        ensures
            *final(self) == (CacheEntry {
                last_accessed: now,
                access_count: (old(self).access_count + 1) as u64,
                ..*old(self)
            }),
    {
        self.last_accessed = now;
        self.access_count = self.access_count + 1;
    }

    /// Whether more than `ttl` has passed since the entry was made.
    pub fn is_expired(&self, ttl: u64, now: u64) -> (r: bool)
        ensures
            r == expired(*self, ttl, now),
    {
        let age: u64 = if now >= self.created_at {
            now - self.created_at
        } else {
            0
        };
        age > ttl
    }

    /// The eviction score at `now`.
    pub fn score(&self, now: u64) -> (r: u128)
        ensures
            r == score(*self, now),
    {
        let age: u128 = if now >= self.created_at {
            (now - self.created_at) as u128
        } else {
            0
        };
        let recency: u128 = if now >= self.last_accessed {
            (now - self.last_accessed) as u128
        } else {
            0
        };
        (age + 2 * recency) / (self.access_count as u128 + 1)
    }
}

/// An entry list: key and entry, in insertion order.
pub type Entries<V> = Seq<(String, CacheEntry<V>)>;

/// Some entry of `es` has key `k`.
pub open spec fn has_key<V>(es: Entries<V>, k: Seq<char>) -> bool {
    exists|i: int| 0 <= i < es.len() && #[trigger] es[i].0@ == k
}

/// No key occurs twice.
pub open spec fn unique_keys<V>(es: Entries<V>) -> bool {
    forall|i: int, j: int| 0 <= i < es.len() && 0 <= j < es.len() && i != j ==> es[i].0@ != es[j].0@
}

/// Every pair of `sub` is a pair of `es`.
pub open spec fn sub_entries<V>(sub: Entries<V>, es: Entries<V>) -> bool {
    forall|i: int| 0 <= i < sub.len() ==> es.contains(#[trigger] sub[i])
}

/// The summed sizes of the entries.
pub open spec fn total_size<V>(es: Entries<V>) -> nat
    decreases es.len(),
{
    if es.len() == 0 {
        0
    } else {
        total_size(es.drop_last()) + es.last().1.size_bytes as nat
    }
}

/// Removing one entry takes its size off the total.
pub proof fn lemma_total_size_remove<V>(es: Entries<V>, j: int)
    requires
        0 <= j < es.len(),
    ensures
        total_size(es.remove(j)) + es[j].1.size_bytes == total_size(es),
    decreases es.len(),
{
    if j < es.len() - 1 {
        lemma_total_size_remove(es.drop_last(), j);
        assert(es.remove(j).drop_last() =~= es.drop_last().remove(j));
        assert(es.remove(j).last() == es.last());
    } else {
        assert(es.remove(j) =~= es.drop_last());
    }
}

/// The entries with key `k` replaced by `e`, or `e` appended under `k`.
pub open spec fn upsert<V>(es: Entries<V>, k: String, e: CacheEntry<V>) -> Entries<V> {
    if has_key(es, k@) {
        let i = choose|i: int| 0 <= i < es.len() && #[trigger] es[i].0@ == k@;
        es.update(i, (k, e))
    } else {
        es.push((k, e))
    }
}

/// What eviction leaves of `old`: a part of it, under the targets (or empty),
/// where each entry that left scores at least as high as each that stayed,
/// nothing leaves when `old` is already under the targets, and no more leave
/// than needed: when some left, keeping one of them back would not have been
/// under the targets.
pub open spec fn eviction_of<V>(old: Entries<V>, mid: Entries<V>, target_len: nat, target_mem: nat, now: u64) -> bool {
    &&& sub_entries(mid, old)
    &&& unique_keys(mid)
    &&& mid.len() <= old.len()
    &&& ((mid.len() <= target_len && total_size(mid) <= target_mem) || mid.len() == 0)
    &&& forall|j: int, i: int|
        0 <= j < old.len() && 0 <= i < mid.len() && !has_key(mid, old[j].0@) ==> score(
            #[trigger] old[j].1,
            now,
        ) >= score(#[trigger] mid[i].1, now)
    &&& (old.len() <= target_len && total_size(old) <= target_mem) ==> mid == old
    &&& mid.len() < old.len() ==> exists|j: int|
        0 <= j < old.len() && !has_key(mid, #[trigger] old[j].0@) && !(mid.len() + 1 <= target_len && total_size(mid)
            + old[j].1.size_bytes <= target_mem)
}

/// `a + b`, or `usize::MAX` when larger.
pub open spec fn sat_add_usize(a: int, b: int) -> int {
    if a + b <= usize::MAX {
        a + b
    } else {
        usize::MAX as int
    }
}

/// Saturating subtraction taken twice is one subtraction of the sum.
proof fn lemma_sat_sub_twice(x: int, a: int, b: int)
    requires
        a >= 0,
        b >= 0,
    ensures
        sat_sub(sat_sub(x, a), b) == sat_sub(x, a + b),
{
}

/// The summed sizes of the entries of `es`, which can not overflow a `u128`.
fn memory_of<V>(es: &Vec<(String, CacheEntry<V>)>) -> (r: u128)
    ensures
        r == total_size(es@),
        r <= es@.len() * 18446744073709551615,
{
    let mut acc: u128 = 0;
    let mut i: usize = 0;
    while i < es.len()
        invariant
            i <= es.len(),
            acc == total_size(es@.take(i as int)),
            acc <= i * 18446744073709551615,
        decreases es.len() - i,
    {
        assert(es@.take(i + 1).drop_last() == es@.take(i as int));
        acc = acc + es[i].1.size_bytes as u128;
        i = i + 1;
    }
    assert(es@.take(es.len() as int) == es@);
    acc
}

/// The index of an entry with the highest score at `now` (the first such).
fn max_score_index<V>(es: &Vec<(String, CacheEntry<V>)>, now: u64) -> (r: usize)
    requires
        es.len() > 0,
    ensures
        r < es.len(),
        forall|i: int| 0 <= i < es.len() ==> score(#[trigger] es@[i].1, now) <= score(es@[r as int].1, now),
{
    let mut best: usize = 0;
    let mut best_score: u128 = es[0].1.score(now);
    let mut i: usize = 1;
    while i < es.len()
        invariant
            1 <= i <= es.len(),
            best < es.len(),
            best_score == score(es@[best as int].1, now),
            forall|k: int| 0 <= k < i ==> score(#[trigger] es@[k].1, now) <= best_score,
        decreases es.len() - i,
    {
        let sc = es[i].1.score(now);
        if sc > best_score {
            best = i;
            best_score = sc;
        }
        i = i + 1;
    }
    best
}

/// One eviction step keeps the eviction invariants: `prev` is a part of `old`
/// in which each entry that left scores at least as high as each that stayed,
/// and the entry removed is one with the highest score.
proof fn lemma_evict_step<V>(old: Entries<V>, prev: Entries<V>, j: int, now: u64)
    requires
        unique_keys(old),
        sub_entries(prev, old),
        unique_keys(prev),
        0 <= j < prev.len(),
        forall|i: int| 0 <= i < prev.len() ==> score(#[trigger] prev[i].1, now) <= score(prev[j].1, now),
        forall|a: int, i: int|
            0 <= a < old.len() && 0 <= i < prev.len() && !has_key(prev, old[a].0@) ==> score(
                #[trigger] old[a].1,
                now,
            ) >= score(#[trigger] prev[i].1, now),
    ensures
        sub_entries(prev.remove(j), old),
        unique_keys(prev.remove(j)),
        forall|a: int, i: int|
            0 <= a < old.len() && 0 <= i < prev.remove(j).len() && !has_key(prev.remove(j), old[a].0@) ==> score(
                #[trigger] old[a].1,
                now,
            ) >= score(#[trigger] prev.remove(j)[i].1, now),
{
    let next = prev.remove(j);
    assert forall|i: int| 0 <= i < next.len() implies old.contains(#[trigger] next[i]) by {
        let i2 = if i < j { i } else { i + 1 };
        assert(next[i] == prev[i2]);
    }
    assert forall|a: int, b: int| 0 <= a < next.len() && 0 <= b < next.len() && a != b implies next[a].0@ != next[b].0@ by {
        let a2 = if a < j { a } else { a + 1 };
        let b2 = if b < j { b } else { b + 1 };
        assert(next[a] == prev[a2]);
        assert(next[b] == prev[b2]);
    }
    assert forall|a: int, i: int|
        0 <= a < old.len() && 0 <= i < next.len() && !has_key(next, old[a].0@) implies score(
            #[trigger] old[a].1,
            now,
        ) >= score(#[trigger] next[i].1, now) by {
        let i2 = if i < j { i } else { i + 1 };
        assert(next[i] == prev[i2]);
        if has_key(prev, old[a].0@) {
            let p = choose|p: int| 0 <= p < prev.len() && #[trigger] prev[p].0@ == old[a].0@;
            if p != j {
                let p2 = if p < j { p } else { p - 1 };
                assert(next[p2] == prev[p]);
                assert(next[p2].0@ == old[a].0@);
                assert(false);
            }
            assert(old.contains(prev[j]));
            let m = choose|m: int| 0 <= m < old.len() && old[m] == prev[j];
            assert(old[m].0@ == old[a].0@);
            assert(m == a);
            assert(score(prev[i2].1, now) <= score(prev[j].1, now));
        } else {
            assert(score(old[a].1, now) >= score(prev[i2].1, now));
        }
    }
}

/// The entry an insertion at `now` makes.
pub open spec fn fresh_entry<V>(value: V, size_bytes: usize, now: u64) -> CacheEntry<V> {
    CacheEntry { value, created_at: now, last_accessed: now, access_count: 1, size_bytes }
}

/// Whether inserting `size_bytes` more calls for eviction first: the cache is
/// at its entry limit, or the new size would pass its memory limit.
pub open spec fn needs_eviction<V>(es: Entries<V>, limits: CacheConfig, size_bytes: usize) -> bool {
    es.len() >= limits.max_entries || total_size(es) + size_bytes > limits.max_memory_bytes
}

/// The size of the entry under `k`, or zero when there is none.
pub open spec fn size_under<V>(es: Entries<V>, k: Seq<char>) -> int {
    if has_key(es, k) {
        let i = choose|i: int| 0 <= i < es.len() && #[trigger] es[i].0@ == k;
        es[i].1.size_bytes as int
    } else {
        0
    }
}

/// A fresh entry is live at the time it was made, whatever the time to live.
pub proof fn law_fresh_entry_is_live<V>(value: V, size_bytes: usize, now: u64, ttl: u64)
    ensures
        !expired(fresh_entry(value, size_bytes, now), ttl, now),
{
}

/// Reading a key back at the time it was written finds what was written: after
/// an insert, the entry under the key is the fresh entry of the inserted value
/// (what `insert_at` promises), and such an entry is live, so a read at that
/// time takes the live branch of `get_at` and returns a clone of the value.
pub proof fn law_read_after_write<V>(es: Entries<V>, key: Seq<char>, value: V, size_bytes: usize, now: u64, ttl: u64)
    requires
        has_key(es, key),
        forall|i: int| 0 <= i < es.len() && #[trigger] es[i].0@ == key ==> es[i].1 == fresh_entry(value, size_bytes, now),
    ensures
        exists|i: int| 0 <= i < es.len() && #[trigger] es[i].0@ == key,
        forall|i: int| 0 <= i < es.len() && #[trigger] es[i].0@ == key ==> !expired(es[i].1, ttl, now)
            && es[i].1.value == value,
{
}

/// The entries of `es` that are live at `now`, in order.
pub open spec fn live_entries<V>(es: Entries<V>, ttl: u64, now: u64) -> Entries<V>
    decreases es.len(),
{
    if es.len() == 0 {
        es
    } else if expired(es.last().1, ttl, now) {
        live_entries(es.drop_last(), ttl, now)
    } else {
        live_entries(es.drop_last(), ttl, now).push(es.last())
    }
}

/// Keeping only live entries keeps a part of the entries, at most as many and
/// at most as large.
proof fn lemma_live_entries<V>(es: Entries<V>, ttl: u64, now: u64)
    ensures
        sub_entries(live_entries(es, ttl, now), es),
        live_entries(es, ttl, now).len() <= es.len(),
        total_size(live_entries(es, ttl, now)) <= total_size(es),
    decreases es.len(),
{
    if es.len() > 0 {
        let prev = es.drop_last();
        lemma_live_entries(prev, ttl, now);
        let l = live_entries(es, ttl, now);
        assert forall|i: int| 0 <= i < l.len() implies es.contains(#[trigger] l[i]) by {
            if i < live_entries(prev, ttl, now).len() {
                assert(l[i] == live_entries(prev, ttl, now)[i]);
                assert(prev.contains(l[i]));
                let m = choose|m: int| 0 <= m < prev.len() && prev[m] == l[i];
                assert(es[m] == l[i]);
            } else {
                assert(l[i] == es[es.len() - 1]);
            }
        }
        if !expired(es.last().1, ttl, now) {
            assert(live_entries(es, ttl, now).drop_last() == live_entries(prev, ttl, now));
        }
    }
}

/// Two positions of the live entries of a key-unique list hold distinct keys.
proof fn lemma_live_unique<V>(es: Entries<V>, ttl: u64, now: u64, a: int, b: int)
    requires
        unique_keys(es),
        0 <= a < live_entries(es, ttl, now).len(),
        0 <= b < live_entries(es, ttl, now).len(),
        a != b,
    ensures
        live_entries(es, ttl, now)[a].0@ != live_entries(es, ttl, now)[b].0@,
    decreases es.len(),
{
    let prev = es.drop_last();
    let lp = live_entries(prev, ttl, now);
    let l = live_entries(es, ttl, now);
    assert(unique_keys(prev)) by {
        assert forall|x: int, y: int| 0 <= x < prev.len() && 0 <= y < prev.len() && x != y implies prev[x].0@ != prev[y].0@ by {
            assert(prev[x] == es[x]);
            assert(prev[y] == es[y]);
        }
    }
    if expired(es.last().1, ttl, now) {
        lemma_live_unique(prev, ttl, now, a, b);
    } else if a < lp.len() && b < lp.len() {
        assert(l[a] == lp[a]);
        assert(l[b] == lp[b]);
        lemma_live_unique(prev, ttl, now, a, b);
    } else {
        lemma_live_entries(prev, ttl, now);
        let x = if a < lp.len() { a } else { b };
        assert(l[x] == lp[x]);
        assert(prev.contains(lp[x]));
        let m = choose|m: int| 0 <= m < prev.len() && prev[m] == lp[x];
        assert(es[m] == lp[x]);
        assert(es[es.len() - 1] == es.last());
    }
}

/// A bounded cache with time-to-live expiry and scored eviction.
pub struct MemoryEfficientCache<V> {
    config: CacheConfig,
    ttl_nanos: u64,
    epoch: Instant,
    entries: Vec<(String, CacheEntry<V>)>,
    stats: CacheStats,
}

impl<V> MemoryEfficientCache<V> {
    #[verifier::type_invariant]
    spec fn inv(self) -> bool {
        &&& unique_keys(self.entries@)
        &&& forall|i: int|
            0 <= i < self.entries@.len() ==> (#[trigger] self.entries@[i]).1.access_count <= self.stats.hits + 1
        &&& self.config.max_entries * 3 <= usize::MAX
        &&& self.config.max_memory_bytes * 3 <= usize::MAX
    }

    /// The entries, in insertion order.
    pub closed spec fn entries(&self) -> Entries<V> {
        self.entries@
    }

    /// The counters.
    pub closed spec fn counters(&self) -> CacheStats {
        self.stats
    }

    /// The limits.
    pub closed spec fn limits(&self) -> CacheConfig {
        self.config
    }

    /// The time to live in nanoseconds.
    pub closed spec fn ttl_nanos(&self) -> u64 {
        self.ttl_nanos
    }

    /// The counters leave room for one more operation of any kind.
    pub open spec fn counters_fit(&self) -> bool {
        &&& self.counters().hits + 2 <= u64::MAX
        &&& self.counters().misses < u64::MAX
        &&& self.counters().insertions < u64::MAX
        &&& self.counters().evictions + self.entries().len() <= u64::MAX
        &&& self.counters().expirations + self.entries().len() <= u64::MAX
    }
}

impl<V: Clone> MemoryEfficientCache<V> {
    /// What reading `key` as the clock reads `now` does, `after` being the
    /// cache afterwards and `r` the answer: an expired entry is dropped and
    /// counts as an expiration (the memory total is left as it was), a live
    /// one is read (and counts as a hit), a missing one counts as a miss.
    pub open spec fn read_outcome(self, after: Self, key: Seq<char>, now: u64, r: Option<V>) -> bool {
        &&& !has_key(self.entries(), key) ==> {
            &&& r is None
            &&& after.entries() == self.entries()
            &&& after.counters() == (CacheStats { misses: (self.counters().misses + 1) as u64, ..self.counters() })
        }
        &&& forall|i: int| 0 <= i < self.entries().len() && #[trigger] self.entries()[i].0@ == key ==> {
            let e = self.entries()[i].1;
            if expired(e, self.ttl_nanos(), now) {
                &&& r is None
                &&& after.entries() == self.entries().remove(i)
                &&& after.counters() == (CacheStats {
                    expirations: (self.counters().expirations + 1) as u64,
                    ..self.counters()
                })
            } else {
                &&& r is Some && cloned(e.value, r->0)
                &&& after.entries() == self.entries().update(i, (self.entries()[i].0, CacheEntry {
                    last_accessed: now,
                    access_count: (e.access_count + 1) as u64,
                    ..e
                }))
                &&& after.counters() == (CacheStats { hits: (self.counters().hits + 1) as u64, ..self.counters() })
            }
        }
    }

    /// What writing `value` under `key` with the given size as the clock
    /// reads `now` does, `after` being the cache afterwards: eviction first
    /// when the cache is full or the size would pass the memory limit, then
    /// a fresh entry under `key`, replacing any there.
    pub open spec fn write_outcome(self, after: Self, key: String, value: V, size_bytes: usize, now: u64) -> bool {
        &&& has_key(after.entries(), key@)
        &&& forall|i: int|
            0 <= i < after.entries().len() && #[trigger] after.entries()[i].0@ == key@
                ==> after.entries()[i].1 == fresh_entry(value, size_bytes, now)
        &&& self.limits().max_entries >= 1 ==> after.entries().len() <= self.limits().max_entries
        &&& exists|mid: Entries<V>| {
            &&& if needs_eviction(self.entries(), self.limits(), size_bytes) {
                eviction_of(
                    self.entries(),
                    mid,
                    (self.limits().max_entries * 3 / 4) as nat,
                    (self.limits().max_memory_bytes * 3 / 4) as nat,
                    now,
                )
            } else {
                mid == self.entries()
            }
            &&& after.entries() == upsert(mid, key, fresh_entry(value, size_bytes, now))
            &&& after.counters() == (CacheStats {
                insertions: (self.counters().insertions + 1) as u64,
                evictions: (self.counters().evictions + self.entries().len() - mid.len()) as u64,
                total_memory_bytes: sat_add_usize(
                    sat_sub(
                        sat_sub(
                            self.counters().total_memory_bytes as int,
                            total_size(self.entries()) - total_size(mid),
                        ),
                        size_under(mid, key@),
                    ),
                    size_bytes as int,
                ) as usize,
                ..self.counters()
            })
        }
    }

    /// What sweeping the entries expired as the clock reads `now` does,
    /// `after` being the cache afterwards.
    pub open spec fn sweep_outcome(self, after: Self, now: u64) -> bool {
        &&& after.entries() == live_entries(self.entries(), self.ttl_nanos(), now)
        &&& after.counters() == (CacheStats {
            expirations: (self.counters().expirations + self.entries().len() - after.entries().len()) as u64,
            total_memory_bytes: sat_sub(
                self.counters().total_memory_bytes as int,
                total_size(self.entries()) - total_size(after.entries()),
            ) as usize,
            ..self.counters()
        })
    }

    /// An empty cache with the given limits; its clock starts now.
    pub fn new(config: CacheConfig) -> (c: Self)
        requires
            config.max_entries * 3 <= usize::MAX,
            config.max_memory_bytes * 3 <= usize::MAX,
        ensures
            c.entries() == Seq::<(String, CacheEntry<V>)>::empty(),
            c.counters() == zero_stats(),
            c.limits() == config,
            c.ttl_nanos() == if crate::time::nanos_of(config.ttl) > u64::MAX {
                u64::MAX as nat
            } else {
                crate::time::nanos_of(config.ttl)
            },
    {
        let ttl_nanos = duration_nanos_u64(&config.ttl);
        let epoch = instant_now();
        MemoryEfficientCache {
            config,
            ttl_nanos,
            epoch,
            entries: Vec::new(),
            stats: CacheStats { hits: 0, misses: 0, insertions: 0, evictions: 0, expirations: 0, total_memory_bytes: 0 },
        }
    }

    /// The index of the entry with key `key`, if any.
    fn find(&self, key: &String) -> (r: Option<usize>)
        ensures
            match r {
                Some(i) => i < self.entries().len() && self.entries()[i as int].0@ == key@,
                None => !has_key(self.entries(), key@),
            },
    {
        let mut i: usize = 0;
        while i < self.entries.len()
            invariant
                i <= self.entries.len(),
                forall|k: int| 0 <= k < i ==> self.entries@[k].0@ != key@,
            decreases self.entries.len() - i,
        {
            if self.entries[i].0 == *key {
                return Some(i);
            }
            i = i + 1;
        }
        None
    }

    /// The value under `key` as the clock reads `now`: an expired entry is
    /// dropped and counts as an expiration, a live one is read (and counts as
    /// a hit), a missing one counts as a miss.
    pub fn get_at(&mut self, key: &String, now: u64) -> (r: Option<V>)
        requires
            old(self).counters_fit(),
        ensures
            final(self).limits() == old(self).limits(),
            final(self).ttl_nanos() == old(self).ttl_nanos(),
            unique_keys(final(self).entries()),
            old(self).read_outcome(*final(self), key@, now, r),
    {
        proof {
            use_type_invariant(&*self);
        }
        match self.find(key) {
            None => {
                self.stats.misses = self.stats.misses + 1;
                None
            },
            Some(i) => {
                let ghost es = self.entries@;
                let expired_now = self.entries[i].1.is_expired(self.ttl_nanos, now);
                let mut entries: Vec<(String, CacheEntry<V>)> = Vec::new();
                std::mem::swap(&mut entries, &mut self.entries);
                if expired_now {
                    let (_k, _e) = entries.remove(i);
                    assert forall|a: int, b: int| 0 <= a < entries@.len() && 0 <= b < entries@.len() && a != b implies entries@[a].0@ != entries@[b].0@ by {
                        let a2 = if a < i { a } else { a + 1 };
                        let b2 = if b < i { b } else { b + 1 };
                        assert(entries@[a] == es[a2]);
                        assert(entries@[b] == es[b2]);
                    }
                    assert forall|a: int| 0 <= a < entries@.len() implies (#[trigger] entries@[a]).1.access_count <= self.stats.hits + 1 by {
                        let a2 = if a < i { a } else { a + 1 };
                        assert(entries@[a] == es[a2]);
                    }
                    self.entries = entries;
                    self.stats.expirations = self.stats.expirations + 1;
                    proof {
                        assert forall|j: int| 0 <= j < es.len() && #[trigger] es[j].0@ == key@ implies j == i by {}
                    }
                    None
                } else {
                    self.stats.hits = self.stats.hits + 1;
                    let (k, mut e) = entries.remove(i);
                    assert(es[i as int].1.access_count <= self.stats.hits);
                    e.access(now);
                    let v = e.value.clone();
                    entries.insert(i, (k, e));
                    assert(entries@ =~= es.update(i as int, entries@[i as int]));
                    assert forall|a: int, b: int| 0 <= a < entries@.len() && 0 <= b < entries@.len() && a != b implies entries@[a].0@ != entries@[b].0@ by {
                        assert(entries@[a].0 == es[a].0);
                        assert(entries@[b].0 == es[b].0);
                    }
                    assert forall|a: int| 0 <= a < entries@.len() implies (#[trigger] entries@[a]).1.access_count <= self.stats.hits + 1 by {
                        if a != i {
                            assert(entries@[a] == es[a]);
                        }
                    }
                    self.entries = entries;
                    proof {
                        assert forall|j: int| 0 <= j < es.len() && #[trigger] es[j].0@ == key@ implies j == i by {}
                    }
                    Some(v)
                }
            },
        }
    }

    /// Evicts the entries with the highest scores at `now` until the cache is
    /// within three quarters of its limits (or empty); returns how many left.
    fn evict_entries(&mut self, now: u64) -> (evicted: u64)
        requires
            old(self).counters_fit(),
        ensures
            final(self).limits() == old(self).limits(),
            final(self).ttl_nanos() == old(self).ttl_nanos(),
            eviction_of(
                old(self).entries(),
                final(self).entries(),
                (old(self).limits().max_entries * 3 / 4) as nat,
                (old(self).limits().max_memory_bytes * 3 / 4) as nat,
                now,
            ),
            evicted == old(self).entries().len() - final(self).entries().len(),
            total_size(final(self).entries()) <= total_size(old(self).entries()),
            final(self).counters() == (CacheStats {
                evictions: (old(self).counters().evictions + evicted) as u64,
                total_memory_bytes: sat_sub(
                    old(self).counters().total_memory_bytes as int,
                    total_size(old(self).entries()) - total_size(final(self).entries()),
                ) as usize,
                ..old(self).counters()
            }),
    {
        proof {
            use_type_invariant(&*self);
        }
        let target_size: usize = self.config.max_entries * 3 / 4;
        let target_memory: usize = self.config.max_memory_bytes * 3 / 4;
        let mut entries: Vec<(String, CacheEntry<V>)> = Vec::new();
        std::mem::swap(&mut entries, &mut self.entries);
        let ghost old_es = entries@;
        let ghost hits = self.stats.hits;
        let ghost old_total = self.stats.total_memory_bytes;
        let mut total: usize = self.stats.total_memory_bytes;
        let mut evicted: u64 = 0;
        let ghost mut last: int = 0;
        proof {
            assert forall|i: int| 0 <= i < old_es.len() implies old_es.contains(#[trigger] old_es[i]) by {}
        }
        loop
            invariant
                unique_keys(old_es),
                forall|k: int| 0 <= k < old_es.len() ==> (#[trigger] old_es[k]).1.access_count <= hits + 1,
                old_es.len() <= u64::MAX,
                sub_entries(entries@, old_es),
                unique_keys(entries@),
                entries@.len() + evicted == old_es.len(),
                forall|a: int, i: int|
                    0 <= a < old_es.len() && 0 <= i < entries@.len() && !has_key(entries@, old_es[a].0@) ==> score(
                        #[trigger] old_es[a].1,
                        now,
                    ) >= score(#[trigger] entries@[i].1, now),
                total_size(entries@) <= total_size(old_es),
                total == sat_sub(old_total as int, total_size(old_es) - total_size(entries@)),
                evicted == 0 ==> entries@ == old_es,
                (old_es.len() <= target_size && total_size(old_es) <= target_memory) ==> evicted == 0,
                evicted > 0 ==> 0 <= last < old_es.len() && !has_key(entries@, old_es[last].0@) && !(entries@.len() + 1
                    <= target_size && total_size(entries@) + old_es[last].1.size_bytes <= target_memory),
            ensures
                (entries@.len() <= target_size && total_size(entries@) <= target_memory) || entries@.len() == 0,
            decreases entries@.len(),
        {
            if entries.len() <= target_size && memory_of(&entries) <= target_memory as u128 {
                break;
            }
            if entries.len() == 0 {
                break;
            }
            let j = max_score_index(&entries, now);
            let ghost prev = entries@;
            proof {
                lemma_evict_step(old_es, prev, j as int, now);
                lemma_total_size_remove(prev, j as int);
                lemma_sat_sub_twice(old_total as int, total_size(old_es) - total_size(prev), prev[j as int].1.size_bytes as int);
            }
            let (_k, e) = entries.remove(j);
            assert(entries@ == prev.remove(j as int));
            proof {
                assert(old_es.contains(prev[j as int]));
                let k = choose|k: int| 0 <= k < old_es.len() && old_es[k] == prev[j as int];
                assert forall|i: int| 0 <= i < entries@.len() implies entries@[i].0@ != prev[j as int].0@ by {
                    let i2 = if i < j { i } else { i + 1 };
                    assert(entries@[i] == prev[i2]);
                }
                last = k;
            }
            total = total.saturating_sub(e.size_bytes);
            evicted = evicted + 1;
        }
        proof {
            assert forall|i: int| 0 <= i < entries@.len() implies (#[trigger] entries@[i]).1.access_count <= self.stats.hits + 1 by {
                assert(old_es.contains(entries@[i]));
            }
        }
        self.entries = entries;
        self.stats.evictions = self.stats.evictions + evicted;
        self.stats.total_memory_bytes = total;
        evicted
    }

    /// Inserts `value` under `key` with the given size as the clock reads
    /// `now`, evicting first when the cache is full or the size would pass
    /// the memory limit. An entry already under `key` is replaced.
    pub fn insert_at(&mut self, key: String, value: V, size_bytes: usize, now: u64)
        requires
            old(self).counters_fit(),
        ensures
            final(self).limits() == old(self).limits(),
            final(self).ttl_nanos() == old(self).ttl_nanos(),
            unique_keys(final(self).entries()),
            old(self).write_outcome(*final(self), key, value, size_bytes, now),
    {
        proof {
            use_type_invariant(&*self);
        }
        let ghost old_es = self.entries@;
        let usage = memory_of(&self.entries);
        if self.entries.len() >= self.config.max_entries || usage + size_bytes as u128 > self.config.max_memory_bytes as u128 {
            self.evict_entries(now);
        }
        proof {
            use_type_invariant(&*self);
        }
        let ghost mid = self.entries@;
        let ghost after_evict = self.stats;
        let entry = CacheEntry::new(value, size_bytes, now);
        let found = self.find(&key);
        let mut entries: Vec<(String, CacheEntry<V>)> = Vec::new();
        std::mem::swap(&mut entries, &mut self.entries);
        match found {
            Some(i) => {
                let old_size = entries[i].1.size_bytes;
                proof {
                    let c = choose|c: int| 0 <= c < mid.len() && #[trigger] mid[c].0@ == key@;
                    assert(c == i);
                    assert(size_under(mid, key@) == old_size);
                }
                let ghost k2 = key;
                entries.set(i, (key, entry));
                assert(entries@ == upsert(mid, k2, fresh_entry(value, size_bytes, now)));
                assert forall|a: int, b: int| 0 <= a < entries@.len() && 0 <= b < entries@.len() && a != b implies entries@[a].0@ != entries@[b].0@ by {
                    assert(entries@[a].0@ == mid[a].0@);
                    assert(entries@[b].0@ == mid[b].0@);
                }
                assert(entries@[i as int].0@ == k2@);
                self.stats.total_memory_bytes = self.stats.total_memory_bytes.saturating_sub(old_size).saturating_add(size_bytes);
            },
            None => {
                let ghost k2 = key;
                entries.push((key, entry));
                assert(entries@ == upsert(mid, k2, fresh_entry(value, size_bytes, now)));
                assert(entries@[mid.len() as int].0@ == k2@);
                assert(size_under(mid, k2@) == 0);
                self.stats.total_memory_bytes = self.stats.total_memory_bytes.saturating_add(size_bytes);
            },
        }
        assert forall|i: int| 0 <= i < entries@.len() implies (#[trigger] entries@[i]).1.access_count <= self.stats.hits + 1 by {
            if i < mid.len() && entries@[i] != mid[i] {
            } else if i < mid.len() {
            }
        }
        self.entries = entries;
        self.stats.insertions = self.stats.insertions + 1;
    }

    /// Removes the entry under `key` and returns its value.
    pub fn remove(&mut self, key: &String) -> (r: Option<V>)
        ensures
            final(self).limits() == old(self).limits(),
            final(self).ttl_nanos() == old(self).ttl_nanos(),
            !has_key(old(self).entries(), key@) ==> r is None && final(self).entries() == old(self).entries()
                && final(self).counters() == old(self).counters(),
            forall|i: int| 0 <= i < old(self).entries().len() && #[trigger] old(self).entries()[i].0@ == key@ ==> {
                &&& r == Some(old(self).entries()[i].1.value)
                &&& final(self).entries() == old(self).entries().remove(i)
                &&& final(self).counters() == (CacheStats {
                    total_memory_bytes: sat_sub(
                        old(self).counters().total_memory_bytes as int,
                        old(self).entries()[i].1.size_bytes as int,
                    ) as usize,
                    ..old(self).counters()
                })
            },
    {
        proof {
            use_type_invariant(&*self);
        }
        match self.find(key) {
            None => None,
            Some(i) => {
                let ghost es = self.entries@;
                let mut entries: Vec<(String, CacheEntry<V>)> = Vec::new();
                std::mem::swap(&mut entries, &mut self.entries);
                let (_k, e) = entries.remove(i);
                assert forall|a: int, b: int| 0 <= a < entries@.len() && 0 <= b < entries@.len() && a != b implies entries@[a].0@ != entries@[b].0@ by {
                    let a2 = if a < i { a } else { a + 1 };
                    let b2 = if b < i { b } else { b + 1 };
                    assert(entries@[a] == es[a2]);
                    assert(entries@[b] == es[b2]);
                }
                assert forall|a: int| 0 <= a < entries@.len() implies (#[trigger] entries@[a]).1.access_count <= self.stats.hits + 1 by {
                    let a2 = if a < i { a } else { a + 1 };
                    assert(entries@[a] == es[a2]);
                }
                self.entries = entries;
                self.stats.total_memory_bytes = self.stats.total_memory_bytes.saturating_sub(e.size_bytes);
                proof {
                    assert forall|j: int| 0 <= j < es.len() && #[trigger] es[j].0@ == key@ implies j == i by {}
                }
                Some(e.value)
            },
        }
    }

    /// Drops every entry. The memory counter goes to zero; the eviction
    /// counter grows by the entries left after clearing, that is by none.
    pub fn clear(&mut self)
        ensures
            final(self).limits() == old(self).limits(),
            final(self).ttl_nanos() == old(self).ttl_nanos(),
            final(self).entries() == Seq::<(String, CacheEntry<V>)>::empty(),
            final(self).counters() == (CacheStats { total_memory_bytes: 0, ..old(self).counters() }),
    {
        proof {
            use_type_invariant(&*self);
        }
        self.entries = Vec::new();
        self.stats.total_memory_bytes = 0;
        self.stats.evictions = self.stats.evictions + self.entries.len() as u64;
    }

    /// The counters.
    pub fn stats(&self) -> (r: CacheStats)
        ensures
            r == self.counters(),
    {
        self.stats
    }

    /// The number of entries.
    pub fn len(&self) -> (r: usize)
        ensures
            r == self.entries().len(),
    {
        self.entries.len()
    }

    /// Whether there are no entries.
    pub fn is_empty(&self) -> (r: bool)
        ensures
            r == (self.entries().len() == 0),
    {
        self.len() == 0
    }

    /// Drops every entry expired as the clock reads `now`.
    pub fn cleanup_expired_at(&mut self, now: u64)
        requires
            old(self).counters_fit(),
        ensures
            final(self).limits() == old(self).limits(),
            final(self).ttl_nanos() == old(self).ttl_nanos(),
            old(self).sweep_outcome(*final(self), now),
    {
        proof {
            use_type_invariant(&*self);
        }
        let ttl = self.ttl_nanos;
        let mut rest: Vec<(String, CacheEntry<V>)> = Vec::new();
        std::mem::swap(&mut rest, &mut self.entries);
        let ghost orig = rest@;
        let ghost hits = self.stats.hits;
        let ghost old_total = self.stats.total_memory_bytes;
        let mut kept: Vec<(String, CacheEntry<V>)> = Vec::new();
        let mut total: usize = self.stats.total_memory_bytes;
        let mut expired_count: u64 = 0;
        let mut i: usize = 0;
        let n = rest.len();
        assert(orig.take(0) == Seq::<(String, CacheEntry<V>)>::empty());
        while i < n
            invariant
                n == orig.len(),
                i <= n,
                rest@ == orig.skip(i as int),
                kept@ == live_entries(orig.take(i as int), ttl, now),
                expired_count + kept@.len() == i,
                total == sat_sub(old_total as int, total_size(orig.take(i as int)) - total_size(kept@)),
                total_size(kept@) <= total_size(orig.take(i as int)),
            decreases n - i,
        {
            let ghost pre = orig.take(i as int);
            let ghost cur = orig.take(i + 1);
            assert(cur.drop_last() == pre);
            assert(cur.last() == orig[i as int]);
            assert(rest@[0] == orig[i as int]);
            let (k, e) = rest.remove(0);
            assert(rest@ == orig.skip(i + 1));
            assert(e == orig[i as int].1);
            assert(total_size(cur) == total_size(pre) + e.size_bytes);
            proof {
                lemma_live_entries(pre, ttl, now);
            }
            if e.is_expired(ttl, now) {
                proof {
                    lemma_sat_sub_twice(old_total as int, total_size(pre) - total_size(kept@), e.size_bytes as int);
                }
                total = total.saturating_sub(e.size_bytes);
                expired_count = expired_count + 1;
            } else {
                let ghost before = kept@;
                kept.push((k, e));
                assert(kept@.drop_last() == before);
                assert(total_size(kept@) == total_size(before) + e.size_bytes);
            }
            i = i + 1;
        }
        assert(orig.take(n as int) == orig);
        proof {
            lemma_live_entries(orig, ttl, now);
            assert forall|a: int, b: int| 0 <= a < kept@.len() && 0 <= b < kept@.len() && a != b implies kept@[a].0@ != kept@[b].0@ by {
                lemma_live_unique(orig, ttl, now, a, b);
            }
            assert forall|a: int| 0 <= a < kept@.len() implies (#[trigger] kept@[a]).1.access_count <= hits + 1 by {
                assert(orig.contains(kept@[a]));
            }
        }
        self.entries = kept;
        self.stats.expirations = self.stats.expirations + expired_count;
        self.stats.total_memory_bytes = total;
    }

    /// The clock reading for this cache: nanoseconds since it was made.
    fn now(&self) -> u64 {
        nanos_since(&self.epoch)
    }

    /// The value under `key`, as `get_at` gives it at the current time.
    pub fn get(&mut self, key: &String) -> (r: Option<V>)
        requires
            old(self).counters_fit(),
        ensures
            final(self).limits() == old(self).limits(),
            final(self).ttl_nanos() == old(self).ttl_nanos(),
            exists|now: u64| #[trigger] old(self).read_outcome(*final(self), key@, now, r),
    {
        let now = self.now();
        let r = self.get_at(key, now);
        assert(old(self).read_outcome(*self, key@, now, r));
        r
    }

    /// Inserts `value` under `key`, sized as one value of its type, at the
    /// current time.
    pub fn insert(&mut self, key: String, value: V)
        requires
            old(self).counters_fit(),
        ensures
            final(self).limits() == old(self).limits(),
            final(self).ttl_nanos() == old(self).ttl_nanos(),
            exists|now: u64|
                #[trigger] old(self).write_outcome(*final(self), key, value, vstd::layout::size_of::<V>() as usize, now),
    {
        let size = self.estimate_size(&value);
        let ghost k = key;
        let ghost v = value;
        self.insert_with_size(key, value, size);
        proof {
            let now = choose|now: u64| #[trigger] old(self).write_outcome(*self, k, v, size, now);
            assert(size == vstd::layout::size_of::<V>() as usize);
            assert(old(self).write_outcome(*self, k, v, vstd::layout::size_of::<V>() as usize, now));
        }
    }

    /// Inserts `value` under `key` with an explicit size, at the current time.
    pub fn insert_with_size(&mut self, key: String, value: V, size_bytes: usize)
        requires
            old(self).counters_fit(),
        ensures
            final(self).limits() == old(self).limits(),
            final(self).ttl_nanos() == old(self).ttl_nanos(),
            exists|now: u64| #[trigger] old(self).write_outcome(*final(self), key, value, size_bytes, now),
    {
        let now = self.now();
        let ghost k = key;
        let ghost v = value;
        self.insert_at(key, value, size_bytes, now);
        assert(old(self).write_outcome(*self, k, v, size_bytes, now));
    }

    /// Drops every entry expired at the current time.
    pub fn cleanup_expired(&mut self)
        requires
            old(self).counters_fit(),
        ensures
            final(self).limits() == old(self).limits(),
            final(self).ttl_nanos() == old(self).ttl_nanos(),
            final(self).entries().len() <= old(self).entries().len(),
            exists|now: u64| #[trigger] old(self).sweep_outcome(*final(self), now),
    {
        let now = self.now();
        proof {
            lemma_live_entries(self.entries(), self.ttl_nanos(), now);
        }
        self.cleanup_expired_at(now);
        assert(old(self).sweep_outcome(*self, now));
    }

    /// The size of one value: the size of its type.
    fn estimate_size(&self, _value: &V) -> (r: usize)
        ensures
            r == vstd::layout::size_of::<V>(),
    {
        core::mem::size_of::<V>()
    }
}


/// Inserting into a cache whose counters have room (as `insert_at` asks)
/// and which has room for the new entry (fewer entries than its limit, and
/// the sizes plus the new one within its memory limit)
/// evicts nothing: every entry under another key stays, the insertion is
/// counted and no eviction is.
pub proof fn law_insert_without_pressure<V: Clone>(
    c: MemoryEfficientCache<V>,
    after: MemoryEfficientCache<V>,
    key: String,
    value: V,
    size_bytes: usize,
    now: u64,
)
    requires
        c.counters_fit(),
        c.write_outcome(after, key, value, size_bytes, now),
        !needs_eviction(c.entries(), c.limits(), size_bytes),
    ensures
        forall|j: int|
            0 <= j < c.entries().len() && (#[trigger] c.entries()[j]).0@ != key@ ==> after.entries().contains(c.entries()[j]),
        after.counters().insertions == c.counters().insertions + 1,
        after.counters().evictions == c.counters().evictions,
{
    let es = c.entries();
    let mid = choose|mid: Entries<V>| {
        &&& if needs_eviction(es, c.limits(), size_bytes) {
            eviction_of(
                es,
                mid,
                (c.limits().max_entries * 3 / 4) as nat,
                (c.limits().max_memory_bytes * 3 / 4) as nat,
                now,
            )
        } else {
            mid == es
        }
        &&& after.entries() == upsert(mid, key, fresh_entry(value, size_bytes, now))
        &&& after.counters() == (CacheStats {
            insertions: (c.counters().insertions + 1) as u64,
            evictions: (c.counters().evictions + es.len() - mid.len()) as u64,
            total_memory_bytes: sat_add_usize(
                sat_sub(
                    sat_sub(c.counters().total_memory_bytes as int, total_size(es) - total_size(mid)),
                    size_under(mid, key@),
                ),
                size_bytes as int,
            ) as usize,
            ..c.counters()
        })
    };
    assert(mid == es);
    assert forall|j: int| 0 <= j < es.len() && (#[trigger] es[j]).0@ != key@ implies after.entries().contains(es[j]) by {
        if has_key(es, key@) {
            let i = choose|i: int| 0 <= i < es.len() && #[trigger] es[i].0@ == key@;
            assert(after.entries()[j] == es[j]);
        } else {
            assert(after.entries()[j] == es[j]);
        }
    }
}

} // verus!
