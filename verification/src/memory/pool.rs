//! A pool of reusable vector buffers, to save allocations when vectors of
//! about the same dimension are made over and over. A buffer is reused when
//! its capacity is at least the dimension asked for and not much more.

use vstd::prelude::*;
use std::collections::VecDeque;

verus! {

/// Limits of a vector pool.
#[derive(Debug, Clone)]
pub struct VectorPoolConfig {
    /// Maximum number of buffers kept.
    pub max_pool_size: usize,
    /// The usual dimension.
    pub dimension: usize,
    /// How much larger than asked a reused buffer may be.
    pub dimension_tolerance: usize,
}

impl Default for VectorPoolConfig {
    fn default() -> (c: Self)
        ensures
            c.max_pool_size == 100,
            c.dimension == 384,
            c.dimension_tolerance == 32,
    {
        VectorPoolConfig { max_pool_size: 100, dimension: 384, dimension_tolerance: 32 }
    }
}

/// Counters and size of a pool.
#[derive(Debug, Clone)]
pub struct VectorPoolStats {
    pub hits: u64,
    pub misses: u64,
    pub pool_size: usize,
    pub max_pool_size: usize,
}

/// A buffer of capacity `capacity` serves a request for `dimension` when it is
/// at least that large and at most `tolerance` larger.
pub open spec fn fits_request(capacity: nat, dimension: nat, tolerance: nat) -> bool {
    dimension <= capacity && capacity <= dimension + tolerance
}

/// A returned buffer of capacity `capacity` is worth keeping when it is at
/// least the usual dimension and at most twice the tolerance larger.
pub open spec fn worth_keeping(capacity: nat, config: VectorPoolConfig) -> bool {
    config.dimension <= capacity && capacity <= config.dimension + 2 * config.dimension_tolerance
}

/// The pooled capacities after a buffer of capacity `capacity` is handed
/// back to a pool holding `caps`: it joins them, last, when it is worth
/// keeping and there is room; otherwise nothing changes.
pub open spec fn kept_back(caps: Seq<usize>, config: VectorPoolConfig, capacity: usize, after: Seq<usize>) -> bool {
    if worth_keeping(capacity as nat, config) && caps.len() < config.max_pool_size {
        after == caps.push(capacity)
    } else {
        after == caps
    }
}

/// `Vec::capacity`: room for at least as many elements as the vector holds.
/// What the allocator gave beyond that is left unsaid.
#[verifier::external_body]
fn capacity_of<T>(v: &Vec<T>) -> (c: usize)
    ensures
        c >= v.len(),
{
    v.capacity()
}

/// Fills an empty vector with `dimension` copies of `fill`.
fn fill_to<T: Copy>(v: &mut Vec<T>, dimension: usize, fill: T)
    requires
        old(v)@.len() == 0,
    ensures
        final(v)@ == Seq::new(dimension as nat, |i: int| fill),
{
    let mut i: usize = 0;
    while i < dimension
        invariant
            i <= dimension,
            v@ == Seq::new(i as nat, |k: int| fill),
        decreases dimension - i,
    {
        v.push(fill);
        i = i + 1;
        assert(v@ =~= Seq::new(i as nat, |k: int| fill));
    }
}

/// A pooled buffer and the capacity it had when it was handed back.
struct Pooled<T> {
    buffer: Vec<T>,
    capacity: usize,
}

/// `i` is the first of `caps` that serves a request for `dimension` within
/// `tolerance`.
pub open spec fn first_fitting(caps: Seq<usize>, dimension: nat, tolerance: nat, i: int) -> bool {
    &&& 0 <= i < caps.len()
    &&& fits_request(caps[i] as nat, dimension, tolerance)
    &&& forall|k: int| 0 <= k < i ==> !fits_request(#[trigger] caps[k] as nat, dimension, tolerance)
}

/// Some capacity of `caps` serves a request for `dimension` within `tolerance`.
pub open spec fn some_fitting(caps: Seq<usize>, dimension: nat, tolerance: nat) -> bool {
    exists|i: int| 0 <= i < caps.len() && fits_request(#[trigger] caps[i] as nat, dimension, tolerance)
}

/// Reusable buffers, oldest first, in a queue; every pooled buffer is empty
/// and kept with its capacity.
pub struct VectorPool<T> {
    config: VectorPoolConfig,
    pool: VecDeque<Pooled<T>>,
    hits: u64,
    misses: u64,
}

impl<T> VectorPool<T> {
    #[verifier::type_invariant]
    spec fn inv(self) -> bool {
        &&& self.pool@.len() <= self.config.max_pool_size
        &&& forall|i: int| 0 <= i < self.pool@.len() ==> (#[trigger] self.pool@[i]).buffer@.len() == 0
        &&& self.config.dimension + 2 * self.config.dimension_tolerance <= usize::MAX
    }

    /// The capacities of the pooled buffers, oldest first.
    pub closed spec fn capacities(&self) -> Seq<usize> {
        self.pool@.map_values(|b: Pooled<T>| b.capacity)
    }

    /// The number of pooled buffers.
    pub open spec fn size(&self) -> nat {
        self.capacities().len()
    }

    /// Requests served from the pool.
    pub closed spec fn hit_count(&self) -> u64 {
        self.hits
    }

    /// Requests served by a new allocation.
    pub closed spec fn miss_count(&self) -> u64 {
        self.misses
    }

    /// The limits.
    pub closed spec fn limits(&self) -> VectorPoolConfig {
        self.config
    }

    /// An empty pool.
    pub fn new(config: VectorPoolConfig) -> (p: Self)
        requires
            config.dimension + 2 * config.dimension_tolerance <= usize::MAX,
        ensures
            p.capacities() == Seq::<usize>::empty(),
            p.hit_count() == 0,
            p.miss_count() == 0,
            p.limits() == config,
    {
        let p = VectorPool { config, pool: VecDeque::new(), hits: 0, misses: 0 };
        assert(p.capacities() =~= Seq::<usize>::empty());
        p
    }

    /// Whether a returned buffer of this capacity is kept (room permitting).
    pub fn worth_keeping(&self, capacity: usize) -> (r: bool)
        ensures
            r == worth_keeping(capacity as nat, self.limits()),
    {
        proof {
            use_type_invariant(self);
        }
        capacity >= self.config.dimension && capacity <= self.config.dimension + self.config.dimension_tolerance * 2
    }

    /// Whether a pooled buffer of this capacity serves a request for
    /// `dimension` elements.
    pub fn fits_request(&self, capacity: usize, dimension: usize) -> (r: bool)
        ensures
            r == fits_request(capacity as nat, dimension as nat, self.limits().dimension_tolerance as nat),
    {
        capacity >= dimension && (capacity as u128) <= dimension as u128 + self.config.dimension_tolerance as u128
    }

    /// A vector of `dimension` copies of `fill`. When a pooled buffer's
    /// capacity fits the request (at least `dimension`, at most the tolerance
    /// more), the first such buffer leaves the pool and is used (a hit);
    /// otherwise a new buffer is made, of capacity the larger of `dimension`
    /// and the usual dimension, and the pool is unchanged (a miss).
    pub fn get_vector(&mut self, dimension: usize, fill: T) -> (v: Vec<T>)
        where T: Copy,
        requires
            old(self).hit_count() < u64::MAX,
            old(self).miss_count() < u64::MAX,
        ensures
            v@ == Seq::new(dimension as nat, |i: int| fill),
            final(self).limits() == old(self).limits(),
            some_fitting(old(self).capacities(), dimension as nat, old(self).limits().dimension_tolerance as nat) ==> exists|i: int|
                #[trigger] first_fitting(old(self).capacities(), dimension as nat, old(self).limits().dimension_tolerance as nat, i) && {
                    &&& final(self).capacities() == old(self).capacities().remove(i)
                    &&& final(self).hit_count() == old(self).hit_count() + 1
                    &&& final(self).miss_count() == old(self).miss_count()
                },
            !some_fitting(old(self).capacities(), dimension as nat, old(self).limits().dimension_tolerance as nat) ==> {
                &&& final(self).capacities() == old(self).capacities()
                &&& final(self).hit_count() == old(self).hit_count()
                &&& final(self).miss_count() == old(self).miss_count() + 1
            },
    {
        proof {
            use_type_invariant(&*self);
        }
        let ghost caps = self.capacities();
        let ghost tol = self.config.dimension_tolerance as nat;
        let n = self.pool.len();
        let mut i: usize = 0;
        while i < n
            invariant
                n == self.pool.len(),
                *self == *old(self),
                caps == old(self).capacities(),
                caps.len() == n,
                tol == old(self).limits().dimension_tolerance,
                i <= n,
                old(self).hit_count() < u64::MAX,
                self.pool@.len() <= self.config.max_pool_size,
                forall|k: int| 0 <= k < self.pool@.len() ==> (#[trigger] self.pool@[k]).buffer@.len() == 0,
                self.config.dimension + 2 * self.config.dimension_tolerance <= usize::MAX,
                forall|k: int| 0 <= k < i ==> !fits_request(#[trigger] caps[k] as nat, dimension as nat, tol),
            decreases n - i,
        {
            let cap = self.pool[i].capacity;
            assert(caps[i as int] == cap);
            if self.fits_request(cap, dimension) {
                let mut pool: VecDeque<Pooled<T>> = VecDeque::new();
                std::mem::swap(&mut pool, &mut self.pool);
                let ghost before = pool@;
                let entry = pool.remove(i).unwrap();
                assert forall|k: int| 0 <= k < pool@.len() implies (#[trigger] pool@[k]).buffer@.len() == 0 by {
                    let k2 = if k < i { k } else { k + 1 };
                    assert(pool@[k] == before[k2]);
                }
                self.pool = pool;
                self.hits = self.hits + 1;
                assert(self.capacities() =~= caps.remove(i as int));
                assert(first_fitting(caps, dimension as nat, tol, i as int));
                let mut v = entry.buffer;
                v.clear();
                fill_to(&mut v, dimension, fill);
                return v;
            }
            i = i + 1;
        }
        assert(!some_fitting(caps, dimension as nat, tol));
        self.misses = self.misses + 1;
        let cap: usize = if dimension >= self.config.dimension {
            dimension
        } else {
            self.config.dimension
        };
        let mut v: Vec<T> = Vec::with_capacity(cap);
        fill_to(&mut v, dimension, fill);
        v
    }

    /// Takes back a buffer: it is emptied and kept when it is worth keeping
    /// and the pool has room, and dropped otherwise.
    pub fn return_vector(&mut self, vec: Vec<T>)
        ensures
            final(self).limits() == old(self).limits(),
            final(self).hit_count() == old(self).hit_count(),
            final(self).miss_count() == old(self).miss_count(),
            exists|capacity: usize|
                #[trigger] kept_back(old(self).capacities(), old(self).limits(), capacity, final(self).capacities()),
            final(self).size() <= final(self).limits().max_pool_size,
    {
        proof {
            use_type_invariant(&*self);
        }
        let mut vec = vec;
        let cap = capacity_of(&vec);
        self.return_with_capacity(vec, cap);
        assert(kept_back(old(self).capacities(), old(self).limits(), cap, self.capacities()));
    }

    /// Takes back a buffer whose capacity, as read by the caller, is
    /// `capacity`: kept, emptied, after the others, when a buffer of that
    /// capacity is worth keeping and the pool has room.
    pub fn return_with_capacity(&mut self, vec: Vec<T>, capacity: usize)
        ensures
            final(self).limits() == old(self).limits(),
            final(self).hit_count() == old(self).hit_count(),
            final(self).miss_count() == old(self).miss_count(),
            kept_back(old(self).capacities(), old(self).limits(), capacity, final(self).capacities()),
    {
        proof {
            use_type_invariant(&*self);
        }
        if self.worth_keeping(capacity) {
            let mut vec = vec;
            vec.clear();
            if self.pool.len() < self.config.max_pool_size {
                let mut pool: VecDeque<Pooled<T>> = VecDeque::new();
                std::mem::swap(&mut pool, &mut self.pool);
                let ghost before = pool@;
                pool.push_back(Pooled { buffer: vec, capacity });
                assert forall|k: int| 0 <= k < pool@.len() implies (#[trigger] pool@[k]).buffer@.len() == 0 by {
                    if k < before.len() {
                        assert(pool@[k] == before[k]);
                    }
                }
                self.pool = pool;
                assert(self.capacities() =~= before.map_values(|b: Pooled<T>| b.capacity).push(capacity));
            }
        }
    }

    /// Counters and size.
    pub fn stats(&self) -> (s: VectorPoolStats)
        ensures
            s.hits == self.hit_count(),
            s.misses == self.miss_count(),
            s.pool_size == self.size(),
            s.max_pool_size == self.limits().max_pool_size,
    {
        VectorPoolStats {
            hits: self.hits,
            misses: self.misses,
            pool_size: self.pool.len(),
            max_pool_size: self.config.max_pool_size,
        }
    }

    /// Drops every pooled buffer and resets the counters.
    pub fn clear(&mut self)
        ensures
            final(self).limits() == old(self).limits(),
            final(self).size() == 0,
            final(self).hit_count() == 0,
            final(self).miss_count() == 0,
    {
        proof {
            use_type_invariant(&*self);
        }
        self.pool = VecDeque::new();
        assert(self.capacities() =~= Seq::<usize>::empty());
        self.hits = 0;
        self.misses = 0;
    }
}


/// A pooled buffer serves a request when its capacity is at least the
/// dimension asked for and at most the tolerance more; a returned buffer is
/// kept when its capacity is at least the usual dimension and at most twice
/// the tolerance more.
pub proof fn law_fit_bounds(capacity: nat, dimension: nat, config: VectorPoolConfig)
    ensures
        fits_request(dimension, dimension, config.dimension_tolerance as nat),
        fits_request((dimension + config.dimension_tolerance) as nat, dimension, config.dimension_tolerance as nat),
        capacity < dimension ==> !fits_request(capacity, dimension, config.dimension_tolerance as nat),
        capacity > dimension + config.dimension_tolerance ==> !fits_request(
            capacity,
            dimension,
            config.dimension_tolerance as nat,
        ),
        worth_keeping(config.dimension as nat, config),
        worth_keeping((config.dimension + 2 * config.dimension_tolerance) as nat, config),
        capacity < config.dimension ==> !worth_keeping(capacity, config),
        capacity > config.dimension + 2 * config.dimension_tolerance ==> !worth_keeping(capacity, config),
{
}

} // verus!
