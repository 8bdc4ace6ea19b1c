//! Search analytics: per-query statistics, overall counters, a bounded log
//! of recent searches, and the views drawn from them (popular queries,
//! trends, a summary).

use vstd::prelude::*;
use crate::text::{str_eq, string_views};

verus! {

/// Limits and switches of the analytics.
#[derive(Debug, Clone)]
pub struct AnalyticsConfig {
    pub max_tracked_queries: usize,
    pub max_performance_records: usize,
    pub enable_detailed_logging: bool,
    pub enable_performance_tracking: bool,
}

impl Default for AnalyticsConfig {
    fn default() -> (c: Self)
        ensures
            c.max_tracked_queries == 10000,
            c.max_performance_records == 5000,
            c.enable_detailed_logging,
            c.enable_performance_tracking,
    {
        AnalyticsConfig {
            max_tracked_queries: 10000,
            max_performance_records: 5000,
            enable_detailed_logging: true,
            enable_performance_tracking: true,
        }
    }
}

/// What analytics reads of one search and its response.
#[derive(Debug, Clone)]
pub struct SearchEvent {
    pub query: String,
    pub collection: Option<String>,
    pub result_count: usize,
    pub query_enhancement_applied: bool,
    pub ranking_method: String,
    pub result_sources: Vec<String>,
}

/// A count per name.
pub type Counts = Seq<(String, usize)>;

/// The counts with the count of `key` raised by one (a new name starts at one).
pub open spec fn bumped(m: Counts, key: String) -> Counts {
    if exists|i: int| 0 <= i < m.len() && #[trigger] m[i].0@ == key@ {
        let i = choose|i: int| 0 <= i < m.len() && #[trigger] m[i].0@ == key@;
        m.update(i, (m[i].0, (m[i].1 + 1) as usize))
    } else {
        m.push((key, 1usize))
    }
}

/// The counts with each of `keys` bumped in turn.
pub open spec fn bumped_all(m: Counts, keys: Seq<String>) -> Counts
    decreases keys.len(),
{
    if keys.len() == 0 {
        m
    } else {
        bumped(bumped_all(m, keys.drop_last()), keys.last())
    }
}

/// No name occurs twice.
pub open spec fn unique_names(m: Counts) -> bool {
    forall|i: int, j: int| 0 <= i < m.len() && 0 <= j < m.len() && i != j ==> m[i].0@ != m[j].0@
}

/// Every count leaves room for `room` more.
pub open spec fn counts_below(m: Counts, room: nat) -> bool {
    forall|i: int| 0 <= i < m.len() ==> (#[trigger] m[i]).1 + room <= usize::MAX
}

/// Raises the count of `key` by one.
pub fn bump(m: &mut Vec<(String, usize)>, key: &String)
    requires
        unique_names(old(m)@),
        counts_below(old(m)@, 1),
    ensures
        final(m)@ == bumped(old(m)@, *key),
        unique_names(final(m)@),
        final(m)@.len() >= old(m)@.len(),
        forall|room: nat| room + 1 <= usize::MAX && counts_below(old(m)@, room + 1) ==> #[trigger] counts_below(final(m)@, room),
{
    let ghost before = m@;
    assert(before == old(m)@);
    let mut i: usize = 0;
    while i < m.len()
        invariant
            i <= m.len(),
            before == old(m)@,
            m@ == before,
            unique_names(before),
            counts_below(before, 1),
            forall|k: int| 0 <= k < i ==> m@[k].0@ != key@,
        decreases m.len() - i,
    {
        if m[i].0 == *key {
            assert(before[i as int].1 + 1 <= usize::MAX);
            let (k, c) = m.remove(i);
            m.insert(i, (k, c + 1));
            proof {
                assert(m@ =~= before.update(i as int, (before[i as int].0, (before[i as int].1 + 1) as usize)));
                let c2 = choose|c2: int| 0 <= c2 < before.len() && #[trigger] before[c2].0@ == key@;
                assert(c2 == i);
                assert(m@ == bumped(before, *key));
                assert forall|a: int, b: int| 0 <= a < m@.len() && 0 <= b < m@.len() && a != b implies m@[a].0@ != m@[b].0@ by {
                    assert(m@[a].0@ == before[a].0@);
                    assert(m@[b].0@ == before[b].0@);
                }
                assert forall|room: nat| room + 1 <= usize::MAX && counts_below(before, room + 1) implies #[trigger] counts_below(m@, room) by {
                    assert forall|a: int| 0 <= a < m@.len() implies (#[trigger] m@[a]).1 + room <= usize::MAX by {
                        assert(before[a].1 + room + 1 <= usize::MAX);
                    }
                }
            }
            return;
        }
        i = i + 1;
    }
    m.push((key.clone(), 1));
    proof {
        assert forall|a: int, b: int| 0 <= a < m@.len() && 0 <= b < m@.len() && a != b implies m@[a].0@ != m@[b].0@ by {
            if a < before.len() {
                assert(m@[a] == before[a]);
            }
            if b < before.len() {
                assert(m@[b] == before[b]);
            }
        }
        assert forall|room: nat| room + 1 <= usize::MAX && counts_below(before, room + 1) implies #[trigger] counts_below(m@, room) by {
            assert forall|a: int| 0 <= a < m@.len() implies (#[trigger] m@[a]).1 + room <= usize::MAX by {
                if a < before.len() {
                    assert(m@[a] == before[a]);
                }
            }
        }
    }
}


/// Statistics of one query.
#[derive(Debug, Clone)]
pub struct QueryStats {
    pub query: String,
    pub count: usize,
    pub total_results: usize,
    pub success_count: usize,
    pub failure_count: usize,
    /// When the query last ran (milliseconds since the Unix epoch).
    pub last_executed: i64,
    /// The query's length in bytes.
    pub query_length: usize,
    /// How often each source contributed results.
    pub result_sources: Vec<(String, usize)>,
}

/// Counters over all searches.
#[derive(Debug, Clone)]
pub struct SearchMetrics {
    pub total_searches: usize,
    pub unique_queries: usize,
    pub successful_searches: usize,
    pub failed_searches: usize,
    pub query_enhancement_count: usize,
    pub result_ranking_count: usize,
    /// How often each collection was searched.
    pub collections_searched: Vec<(String, usize)>,
}

/// One search, as logged.
#[derive(Debug, Clone)]
pub struct PerformanceRecord {
    /// When the search was recorded (milliseconds since the Unix epoch).
    pub timestamp: i64,
    pub query: String,
    pub collection: Option<String>,
    pub result_count: usize,
    pub query_enhancement_applied: bool,
    pub ranking_method: Option<String>,
    pub success: bool,
    pub error_details: Option<String>,
}

/// A search succeeds when it finds something.
pub open spec fn search_succeeded(e: SearchEvent) -> bool {
    e.result_count > 0
}

/// The byte length of a text's UTF-8 encoding.
pub open spec fn byte_len(s: Seq<char>) -> nat {
    vstd::utf8::encode_utf8(s).len()
}

/// The statistics after one more search `e` at `ts`, compared with `s`.
pub open spec fn query_stats_step(s: QueryStats, t: QueryStats, e: SearchEvent, ts: i64) -> bool {
    &&& t.query@ == s.query@
    &&& t.count == s.count + 1
    &&& t.total_results == s.total_results + e.result_count
    &&& t.success_count == s.success_count + if search_succeeded(e) { 1int } else { 0int }
    &&& t.failure_count == s.failure_count + if search_succeeded(e) { 0int } else { 1int }
    &&& t.last_executed == ts
    &&& t.query_length == s.query_length
    &&& t.result_sources@ == bumped_all(s.result_sources@, e.result_sources@)
}

/// The query statistics after search `e` at `ts`: the entry of its query
/// moves on, made fresh (length in bytes, no sources) when the query is new.
pub open spec fn stats_after(qs: Seq<QueryStats>, t: Seq<QueryStats>, e: SearchEvent, ts: i64) -> bool {
    if exists|i: int| 0 <= i < qs.len() && #[trigger] qs[i].query@ == e.query@ {
        let i = choose|i: int| 0 <= i < qs.len() && #[trigger] qs[i].query@ == e.query@;
        &&& t.len() == qs.len()
        &&& forall|j: int| 0 <= j < qs.len() && j != i ==> t[j] == qs[j]
        &&& query_stats_step(qs[i], t[i], e, ts)
    } else {
        &&& t.len() == qs.len() + 1
        &&& forall|j: int| 0 <= j < qs.len() ==> t[j] == qs[j]
        &&& t.last().query@ == e.query@
        &&& t.last().query_length == byte_len(e.query@) as usize
        &&& t.last().count == 1
        &&& t.last().total_results == e.result_count
        &&& t.last().success_count == if search_succeeded(e) { 1int } else { 0int }
        &&& t.last().failure_count == if search_succeeded(e) { 0int } else { 1int }
        &&& t.last().last_executed == ts
        &&& t.last().result_sources@ == bumped_all(Seq::empty(), e.result_sources@)
    }
}

/// No query has two entries.
pub open spec fn unique_queries(qs: Seq<QueryStats>) -> bool {
    forall|i: int, j: int| 0 <= i < qs.len() && 0 <= j < qs.len() && i != j ==> qs[i].query@ != qs[j].query@
}

/// Every entry's source names are unique.
pub open spec fn sources_unique(qs: Seq<QueryStats>) -> bool {
    forall|i: int| 0 <= i < qs.len() ==> unique_names((#[trigger] qs[i]).result_sources@)
}

/// The counters after search `e`, with `unique` distinct queries known.
pub open spec fn metrics_after(m: SearchMetrics, t: SearchMetrics, e: SearchEvent, unique: nat) -> bool {
    &&& t.total_searches == m.total_searches + 1
    &&& t.unique_queries == unique
    &&& t.successful_searches == m.successful_searches + if search_succeeded(e) { 1int } else { 0int }
    &&& t.failed_searches == m.failed_searches + if search_succeeded(e) { 0int } else { 1int }
    &&& t.query_enhancement_count == m.query_enhancement_count + if e.query_enhancement_applied { 1int } else { 0int }
    &&& t.result_ranking_count == m.result_ranking_count + 1
    &&& t.collections_searched@ == match e.collection {
        Some(c) => bumped(m.collections_searched@, c),
        None => m.collections_searched@,
    }
}

/// The log entry of search `e` at `ts`.
pub open spec fn logged(r: PerformanceRecord, e: SearchEvent, ts: i64) -> bool {
    &&& r.timestamp == ts
    &&& r.query@ == e.query@
    &&& r.collection == e.collection
    &&& r.result_count == e.result_count
    &&& r.query_enhancement_applied == e.query_enhancement_applied
    &&& r.ranking_method == Some(e.ranking_method)
    &&& r.success == search_succeeded(e)
    &&& r.error_details is None
}

/// Counts of one query, for popularity listings.
#[derive(Debug, Clone)]
pub struct PopularQuery {
    pub query: String,
    pub count: usize,
    pub total_results: usize,
    pub success_count: usize,
}

/// Trends over all searches.
#[derive(Debug, Clone)]
pub struct SearchTrends {
    pub total_searches: usize,
    pub unique_queries: usize,
    /// Searches per collection.
    pub top_categories: Vec<(String, usize)>,
}

/// A summary of the analytics.
#[derive(Debug, Clone)]
pub struct AnalyticsSummary {
    pub total_searches: usize,
    pub unique_queries: usize,
    pub successful_searches: usize,
    pub query_enhancement_count: usize,
    pub result_ranking_count: usize,
    /// Counts of every query.
    pub top_queries: Vec<PopularQuery>,
    pub collections_searched: Vec<(String, usize)>,
    /// The last ten searches logged, latest first.
    pub recent_performance: Vec<PerformanceRecord>,
}

/// `r` lists the `limit` most searched queries of `qs` (all of them when
/// there are fewer), most searched first: each from its own entry of `qs`,
/// and no entry left out searched more often than the last one listed.
pub open spec fn most_popular(qs: Seq<QueryStats>, r: Seq<PopularQuery>, limit: nat) -> bool {
    &&& r.len() == if qs.len() < limit { qs.len() } else { limit }
    &&& exists|idx: Seq<int>| {
        &&& idx.len() == r.len()
        &&& forall|k: int| 0 <= k < idx.len() ==> 0 <= #[trigger] idx[k] < qs.len()
        &&& forall|a: int, b: int| 0 <= a < b < idx.len() ==> idx[a] != idx[b]
        &&& forall|k: int| 0 <= k < r.len() ==> {
            &&& (#[trigger] r[k]).query@ == qs[idx[k]].query@
            &&& r[k].count == qs[idx[k]].count
            &&& r[k].total_results == qs[idx[k]].total_results
            &&& r[k].success_count == qs[idx[k]].success_count
        }
        &&& forall|a: int, b: int| 0 <= a < b < r.len() ==> (#[trigger] r[a]).count >= (#[trigger] r[b]).count
        &&& r.len() > 0 ==> forall|j: int| 0 <= j < qs.len() && !idx.contains(j) ==> #[trigger] qs[j].count <= r.last().count
    }
}

/// Search analytics kept in memory.
pub struct ProductionSearchAnalytics {
    query_stats: Vec<QueryStats>,
    search_metrics: SearchMetrics,
    performance_data: Vec<PerformanceRecord>,
    config: AnalyticsConfig,
}

impl ProductionSearchAnalytics {
    #[verifier::type_invariant]
    spec fn inv(self) -> bool {
        &&& unique_queries(self.query_stats@)
        &&& sources_unique(self.query_stats@)
        &&& unique_names(self.search_metrics.collections_searched@)
        &&& self.search_metrics.total_searches == self.search_metrics.successful_searches
            + self.search_metrics.failed_searches
    }

    /// The per-query statistics.
    pub closed spec fn queries(&self) -> Seq<QueryStats> {
        self.query_stats@
    }

    /// The overall counters.
    pub closed spec fn metrics(&self) -> SearchMetrics {
        self.search_metrics
    }

    /// The log of searches, oldest first.
    pub closed spec fn log(&self) -> Seq<PerformanceRecord> {
        self.performance_data@
    }

    /// The settings.
    pub closed spec fn settings(&self) -> AnalyticsConfig {
        self.config
    }

    /// Recording `e` overflows no counter.
    pub open spec fn room_for(&self, e: SearchEvent) -> bool {
        &&& self.metrics().total_searches < usize::MAX
        &&& self.metrics().successful_searches < usize::MAX
        &&& self.metrics().failed_searches < usize::MAX
        &&& self.metrics().query_enhancement_count < usize::MAX
        &&& self.metrics().result_ranking_count < usize::MAX
        &&& counts_below(self.metrics().collections_searched@, 1)
        &&& e.result_sources@.len() < usize::MAX
        &&& forall|i: int| 0 <= i < self.queries().len() && #[trigger] self.queries()[i].query@ == e.query@ ==> {
            &&& self.queries()[i].count < usize::MAX
            &&& self.queries()[i].total_results + e.result_count <= usize::MAX
            &&& self.queries()[i].success_count < usize::MAX
            &&& self.queries()[i].failure_count < usize::MAX
            &&& counts_below(self.queries()[i].result_sources@, e.result_sources@.len())
        }
    }

    /// Empty analytics.
    pub fn new(config: AnalyticsConfig) -> (a: Self)
        ensures
            a.queries() == Seq::<QueryStats>::empty(),
            a.log() == Seq::<PerformanceRecord>::empty(),
            a.metrics().total_searches == 0,
            a.metrics().unique_queries == 0,
            a.metrics().successful_searches == 0,
            a.metrics().failed_searches == 0,
            a.metrics().query_enhancement_count == 0,
            a.metrics().result_ranking_count == 0,
            a.metrics().collections_searched@.len() == 0,
            a.settings() == config,
    {
        ProductionSearchAnalytics {
            query_stats: Vec::new(),
            search_metrics: SearchMetrics {
                total_searches: 0,
                unique_queries: 0,
                successful_searches: 0,
                failed_searches: 0,
                query_enhancement_count: 0,
                result_ranking_count: 0,
                collections_searched: Vec::new(),
            },
            performance_data: Vec::new(),
            config,
        }
    }

    /// Empty analytics with the default settings.
    pub fn with_default_config() -> (a: Self)
        ensures
            a.queries() == Seq::<QueryStats>::empty(),
            a.log() == Seq::<PerformanceRecord>::empty(),
            a.metrics().total_searches == 0,
            a.metrics().unique_queries == 0,
            a.metrics().successful_searches == 0,
            a.metrics().failed_searches == 0,
            a.metrics().query_enhancement_count == 0,
            a.metrics().result_ranking_count == 0,
            a.metrics().collections_searched@.len() == 0,
            a.settings() == (AnalyticsConfig {
                max_tracked_queries: 10000,
                max_performance_records: 5000,
                enable_detailed_logging: true,
                enable_performance_tracking: true,
            }),
    {
        ProductionSearchAnalytics::new(AnalyticsConfig::default())
    }
}

impl ProductionSearchAnalytics {
    /// The index of the statistics of `query`.
    fn query_position(&self, query: &String) -> (r: Option<usize>)
        ensures
            match r {
                Some(i) => i < self.queries().len() && self.queries()[i as int].query@ == query@,
                None => forall|k: int| 0 <= k < self.queries().len() ==> (#[trigger] self.queries()[k]).query@ != query@,
            },
    {
        let mut i: usize = 0;
        while i < self.query_stats.len()
            invariant
                i <= self.query_stats.len(),
                forall|k: int| 0 <= k < i ==> self.query_stats@[k].query@ != query@,
            decreases self.query_stats.len() - i,
        {
            if self.query_stats[i].query == *query {
                return Some(i);
            }
            i = i + 1;
        }
        None
    }

    /// Records search `e` made at `timestamp`: the statistics of its query,
    /// the overall counters and (when tracking is on) the log move on.
    pub fn record_search_at(&mut self, e: SearchEvent, timestamp: i64)
        requires
            old(self).room_for(e),
        ensures
            final(self).settings() == old(self).settings(),
            stats_after(old(self).queries(), final(self).queries(), e, timestamp),
            metrics_after(old(self).metrics(), final(self).metrics(), e, final(self).queries().len()),
            final(self).metrics().total_searches == final(self).metrics().successful_searches
                + final(self).metrics().failed_searches,
            if old(self).settings().enable_performance_tracking {
                &&& final(self).log().len() == old(self).log().len() + 1
                &&& final(self).log().drop_last() == old(self).log()
                &&& logged(final(self).log().last(), e, timestamp)
            } else {
                final(self).log() == old(self).log()
            },
    {
        proof {
            use_type_invariant(&*self);
        }
        let success = e.result_count > 0;
        let found = self.query_position(&e.query);
        let ghost q0 = self.queries();
        let mut qs: Vec<QueryStats> = Vec::new();
        std::mem::swap(&mut qs, &mut self.query_stats);
        match found {
            Some(i) => {
                let mut st = qs.remove(i);
                st.count = st.count + 1;
                st.total_results = st.total_results + e.result_count;
                st.last_executed = timestamp;
                if success {
                    st.success_count = st.success_count + 1;
                } else {
                    st.failure_count = st.failure_count + 1;
                }
                bump_all(&mut st.result_sources, &e.result_sources);
                let ghost s1 = st;
                qs.insert(i, st);
                proof {
                    assert(qs@ =~= q0.update(i as int, s1));
                    let c = choose|c: int| 0 <= c < q0.len() && #[trigger] q0[c].query@ == e.query@;
                    assert(c == i);
                    assert forall|a: int, b: int| 0 <= a < qs@.len() && 0 <= b < qs@.len() && a != b implies qs@[a].query@ != qs@[b].query@ by {
                        assert(qs@[a].query@ == q0[a].query@);
                        assert(qs@[b].query@ == q0[b].query@);
                    }
                    assert forall|a: int| 0 <= a < qs@.len() implies unique_names((#[trigger] qs@[a]).result_sources@) by {
                        if a != i {
                            assert(qs@[a] == q0[a]);
                        }
                    }
                    assert(query_stats_step(q0[i as int], qs@[i as int], e, timestamp));
                    assert(stats_after(q0, qs@, e, timestamp));
                }
            },
            None => {
                let mut st = QueryStats {
                    query: e.query.clone(),
                    count: 1,
                    total_results: e.result_count,
                    success_count: if success { 1 } else { 0 },
                    failure_count: if success { 0 } else { 1 },
                    last_executed: timestamp,
                    query_length: e.query.as_str().len(),
                    result_sources: Vec::new(),
                };
                assert(counts_below(st.result_sources@, e.result_sources@.len() as nat));
                bump_all(&mut st.result_sources, &e.result_sources);
                qs.push(st);
                proof {
                    assert forall|a: int, b: int| 0 <= a < qs@.len() && 0 <= b < qs@.len() && a != b implies qs@[a].query@ != qs@[b].query@ by {
                        if a < q0.len() {
                            assert(qs@[a] == q0[a]);
                        }
                        if b < q0.len() {
                            assert(qs@[b] == q0[b]);
                        }
                    }
                    assert forall|a: int| 0 <= a < qs@.len() implies unique_names((#[trigger] qs@[a]).result_sources@) by {
                        if a < q0.len() {
                            assert(qs@[a] == q0[a]);
                        }
                    }
                    assert(qs@.last().result_sources@ == bumped_all(Seq::empty(), e.result_sources@));
                    assert(!exists|k: int| 0 <= k < q0.len() && #[trigger] q0[k].query@ == e.query@);
                    assert(qs@.last().query_length == byte_len(e.query@) as usize);
                    assert(stats_after(q0, qs@, e, timestamp));
                }
            },
        }
        self.query_stats = qs;
        let mut m = SearchMetrics {
            total_searches: 0,
            unique_queries: 0,
            successful_searches: 0,
            failed_searches: 0,
            query_enhancement_count: 0,
            result_ranking_count: 0,
            collections_searched: Vec::new(),
        };
        std::mem::swap(&mut m, &mut self.search_metrics);
        m.total_searches = m.total_searches + 1;
        if success {
            m.successful_searches = m.successful_searches + 1;
        } else {
            m.failed_searches = m.failed_searches + 1;
        }
        if e.query_enhancement_applied {
            m.query_enhancement_count = m.query_enhancement_count + 1;
        }
        m.result_ranking_count = m.result_ranking_count + 1;
        if let Some(c) = &e.collection {
            bump(&mut m.collections_searched, c);
        }
        m.unique_queries = self.query_stats.len();
        self.search_metrics = m;
        proof {
            use_type_invariant(&*self);
        }
        if self.config.enable_performance_tracking {
            let record = PerformanceRecord {
                timestamp,
                query: e.query,
                collection: e.collection,
                result_count: e.result_count,
                query_enhancement_applied: e.query_enhancement_applied,
                ranking_method: Some(e.ranking_method),
                success,
                error_details: None,
            };
            let mut log: Vec<PerformanceRecord> = Vec::new();
            std::mem::swap(&mut log, &mut self.performance_data);
            let ghost l0 = log@;
            log.push(record);
            assert(log@.drop_last() == l0);
            self.performance_data = log;
        }
    }
}

/// Distinct indices below `n` number at most `n`, and exactly `n` when they
/// cover every index below `n`.
pub proof fn lemma_index_count(idx: Seq<int>, n: int)
    requires
        0 <= n,
        idx.no_duplicates(),
        forall|k: int| 0 <= k < idx.len() ==> 0 <= #[trigger] idx[k] < n,
    ensures
        idx.len() <= n,
        (forall|j: int| 0 <= j < n ==> idx.contains(j)) ==> idx.len() == n,
{
    let s = idx.to_set();
    let r = vstd::set_lib::set_int_range(0, n);
    idx.unique_seq_to_set();
    vstd::set_lib::lemma_int_range(0, n);
    assert(s.subset_of(r)) by {
        assert forall|x: int| s.contains(x) implies r.contains(x) by {
            let k = choose|k: int| 0 <= k < idx.len() && idx[k] == x;
        }
    }
    vstd::set_lib::lemma_len_subset(s, r);
    if forall|j: int| 0 <= j < n ==> idx.contains(j) {
        assert(r.subset_of(s)) by {
            assert forall|x: int| r.contains(x) implies s.contains(x) by {
                assert(idx.contains(x));
            }
        }
        vstd::set_lib::lemma_len_subset(r, s);
    }
}

/// Entry `a` ranks before entry `b` by popularity: searched more often, or
/// as often and earlier in the list.
pub open spec fn ranks_before(qs: Seq<QueryStats>, a: int, b: int) -> bool {
    qs[a].count > qs[b].count || (qs[a].count == qs[b].count && a < b)
}

/// Entry `m` may come next after `last` (any entry may come first).
pub open spec fn is_candidate(qs: Seq<QueryStats>, has_last: bool, last: int, m: int) -> bool {
    !has_last || ranks_before(qs, last, m)
}

/// Two distinct entries are ranked one way.
proof fn lemma_ranks_total(qs: Seq<QueryStats>, a: int, b: int)
    requires
        a != b,
    ensures
        ranks_before(qs, a, b) || ranks_before(qs, b, a),
        !(ranks_before(qs, a, b) && ranks_before(qs, b, a)),
{
}

impl ProductionSearchAnalytics {
    /// The `limit` most searched queries, most searched first (ties in the
    /// order the queries were first seen).
    pub fn get_popular_queries(&self, limit: usize) -> (r: Vec<PopularQuery>)
        ensures
            most_popular(self.queries(), r@, limit as nat),
    {
        let ghost qs = self.queries();
        let n = self.query_stats.len();
        let mut r: Vec<PopularQuery> = Vec::new();
        let ghost mut idx: Seq<int> = Seq::empty();
        let mut last: usize = 0;
        loop
            invariant
                qs == self.queries(),
                n == qs.len(),
                r@.len() == idx.len(),
                r@.len() <= limit,
                r@.len() > 0 ==> last < n && idx.last() == last as int,
                forall|k: int| 0 <= k < idx.len() ==> 0 <= #[trigger] idx[k] < n,
                forall|a: int, b: int| 0 <= a < b < idx.len() ==> ranks_before(qs, #[trigger] idx[a], #[trigger] idx[b]),
                forall|k: int| 0 <= k < r@.len() ==> {
                    &&& (#[trigger] r@[k]).query@ == qs[idx[k]].query@
                    &&& r@[k].count == qs[idx[k]].count
                    &&& r@[k].total_results == qs[idx[k]].total_results
                    &&& r@[k].success_count == qs[idx[k]].success_count
                },
                r@.len() > 0 ==> forall|j: int| 0 <= j < n && !ranks_before(qs, last as int, j) ==> #[trigger] idx.contains(j),
            ensures
                most_popular(qs, r@, limit as nat),
            decreases limit - r@.len(),
        {
            proof {
                assert(idx.no_duplicates()) by {
                    assert forall|a: int, b: int| 0 <= a < idx.len() && 0 <= b < idx.len() && a != b implies idx[a] != idx[b] by {
                        if a < b {
                            assert(ranks_before(qs, idx[a], idx[b]));
                        } else {
                            assert(ranks_before(qs, idx[b], idx[a]));
                        }
                    }
                }
                lemma_index_count(idx, n as int);
            }
            if r.len() >= limit {
                proof {
                    self.lemma_popular_witness(r@, idx, last as int, limit as nat);
                }
                break;
            }
            let mut best: usize = 0;
            let mut found = false;
            let mut j: usize = 0;
            let ghost has = r@.len() > 0;
            while j < n
                invariant
                    has == (r@.len() > 0),
                    qs == self.queries(),
                    n == qs.len(),
                    j <= n,
                    found ==> best < n,
                    found ==> (r@.len() == 0 || ranks_before(qs, last as int, best as int)),
                    found ==> forall|m: int| 0 <= m < j && #[trigger] is_candidate(qs, has, last as int, m) ==> !ranks_before(qs, m, best as int),
                    !found ==> forall|m: int| 0 <= m < j ==> !#[trigger] is_candidate(qs, has, last as int, m),
                    r@.len() > 0 ==> last < n,
                decreases n - j,
            {
                let candidate = r.len() == 0 || self.query_stats[last].count > self.query_stats[j].count
                    || (self.query_stats[last].count == self.query_stats[j].count && last < j);
                if candidate {
                    let better = !found || self.query_stats[j].count > self.query_stats[best].count
                        || (self.query_stats[j].count == self.query_stats[best].count && j < best);
                    if better {
                        proof {
                            assert forall|m: int| 0 <= m < j + 1 && #[trigger] is_candidate(qs, has, last as int, m) implies !ranks_before(qs, m, j as int) by {
                                if m < j && found && ranks_before(qs, m, j as int) {
                                    assert(!ranks_before(qs, m, best as int));
                                }
                            }
                        }
                        best = j;
                        found = true;
                    }
                }
                j = j + 1;
            }
            if !found {
                proof {
                    if r@.len() > 0 {
                        assert forall|m: int| 0 <= m < n implies idx.contains(m) by {
                            assert(!is_candidate(qs, has, last as int, m));
                        }
                    } else if n > 0 {
                        assert(!is_candidate(qs, has, last as int, 0));
                    }
                    lemma_index_count(idx, n as int);
                    self.lemma_popular_witness(r@, idx, last as int, limit as nat);
                }
                break;
            }
            let entry = PopularQuery {
                query: self.query_stats[best].query.clone(),
                count: self.query_stats[best].count,
                total_results: self.query_stats[best].total_results,
                success_count: self.query_stats[best].success_count,
            };
            let ghost old_idx = idx;
            let ghost old_last = last;
            let ghost had = r@.len() > 0;
            r.push(entry);
            proof {
                idx = idx.push(best as int);
                assert forall|a: int, b: int| 0 <= a < b < idx.len() implies ranks_before(qs, #[trigger] idx[a], #[trigger] idx[b]) by {
                    if b == idx.len() - 1 {
                        if a < old_idx.len() - 1 {
                            assert(ranks_before(qs, old_idx[a], old_idx.last()));
                            assert(ranks_before(qs, old_last as int, best as int));
                        }
                    } else {
                        assert(idx[a] == old_idx[a]);
                        assert(idx[b] == old_idx[b]);
                    }
                }
                assert forall|j2: int| 0 <= j2 < n && !ranks_before(qs, best as int, j2) implies #[trigger] idx.contains(j2) by {
                    if j2 == best as int {
                        assert(idx[idx.len() - 1] == j2);
                    } else if had && !ranks_before(qs, old_last as int, j2) {
                        assert(old_idx.contains(j2));
                        let q = choose|q: int| 0 <= q < old_idx.len() && old_idx[q] == j2;
                        assert(idx[q] == j2);
                    } else {
                        assert(is_candidate(qs, has, old_last as int, j2));
                        assert(!ranks_before(qs, j2, best as int));
                        lemma_ranks_total(qs, j2, best as int);
                    }
                }
                assert forall|k: int| 0 <= k < r@.len() implies {
                    &&& (#[trigger] r@[k]).query@ == qs[idx[k]].query@
                    &&& r@[k].count == qs[idx[k]].count
                    &&& r@[k].total_results == qs[idx[k]].total_results
                    &&& r@[k].success_count == qs[idx[k]].success_count
                } by {
                    if k < old_idx.len() {
                        assert(idx[k] == old_idx[k]);
                    }
                }
            }
            last = best;
        }
        r
    }

    /// The witness that a selection meets `most_popular`.
    proof fn lemma_popular_witness(&self, r: Seq<PopularQuery>, idx: Seq<int>, last: int, limit: nat)
        requires
            r.len() == idx.len(),
            r.len() <= limit,
            r.len() > 0 ==> last < self.queries().len() && idx.last() == last,
            idx.len() <= self.queries().len(),
            r.len() < limit ==> r.len() == self.queries().len(),
            forall|k: int| 0 <= k < idx.len() ==> 0 <= #[trigger] idx[k] < self.queries().len(),
            forall|a: int, b: int| 0 <= a < b < idx.len() ==> ranks_before(self.queries(), #[trigger] idx[a], #[trigger] idx[b]),
            forall|k: int| 0 <= k < r.len() ==> {
                &&& (#[trigger] r[k]).query@ == self.queries()[idx[k]].query@
                &&& r[k].count == self.queries()[idx[k]].count
                &&& r[k].total_results == self.queries()[idx[k]].total_results
                &&& r[k].success_count == self.queries()[idx[k]].success_count
            },
            r.len() > 0 ==> forall|j: int| 0 <= j < self.queries().len() && !ranks_before(self.queries(), last, j) ==> #[trigger] idx.contains(j),
        ensures
            most_popular(self.queries(), r, limit),
    {
        let qs = self.queries();
        assert forall|a: int, b: int| 0 <= a < b < idx.len() implies idx[a] != idx[b] by {
            assert(ranks_before(qs, idx[a], idx[b]));
        }
        assert forall|a: int, b: int| 0 <= a < b < r.len() implies (#[trigger] r[a]).count >= (#[trigger] r[b]).count by {
            assert(ranks_before(qs, idx[a], idx[b]));
        }
        if r.len() > 0 {
            assert forall|j: int| 0 <= j < qs.len() && !idx.contains(j) implies #[trigger] qs[j].count <= r.last().count by {
                assert(ranks_before(qs, last, j));
            }
        }
    }
}

/// Some entry is for query `q`.
pub open spec fn has_query(qs: Seq<QueryStats>, q: Seq<char>) -> bool {
    exists|i: int| 0 <= i < qs.len() && #[trigger] qs[i].query@ == q
}

/// What the cleanup keeps of `old` with room for `max` queries: all of them
/// when they fit, else `max` of them, where each entry dropped ran no later
/// than each kept.
pub open spec fn oldest_dropped(old: Seq<QueryStats>, kept: Seq<QueryStats>, max: nat) -> bool {
    &&& old.len() <= max ==> kept == old
    &&& old.len() > max ==> kept.len() == max
    &&& forall|k: int| 0 <= k < kept.len() ==> old.contains(#[trigger] kept[k])
    &&& unique_queries(kept)
    &&& forall|a: int, k: int|
        0 <= a < old.len() && 0 <= k < kept.len() && !has_query(kept, old[a].query@)
            ==> (#[trigger] old[a]).last_executed <= (#[trigger] kept[k]).last_executed
}

/// One cleanup step keeps the cleanup invariants: the entry dropped is one
/// that ran earliest.
proof fn lemma_drop_oldest_step(old: Seq<QueryStats>, prev: Seq<QueryStats>, j: int)
    requires
        unique_queries(old),
        forall|k: int| 0 <= k < prev.len() ==> old.contains(#[trigger] prev[k]),
        unique_queries(prev),
        0 <= j < prev.len(),
        forall|i: int| 0 <= i < prev.len() ==> (#[trigger] prev[i]).last_executed >= prev[j].last_executed,
        forall|a: int, k: int|
            0 <= a < old.len() && 0 <= k < prev.len() && !has_query(prev, old[a].query@)
                ==> (#[trigger] old[a]).last_executed <= (#[trigger] prev[k]).last_executed,
    ensures
        forall|k: int| 0 <= k < prev.remove(j).len() ==> old.contains(#[trigger] prev.remove(j)[k]),
        unique_queries(prev.remove(j)),
        forall|a: int, k: int|
            0 <= a < old.len() && 0 <= k < prev.remove(j).len() && !has_query(prev.remove(j), old[a].query@)
                ==> (#[trigger] old[a]).last_executed <= (#[trigger] prev.remove(j)[k]).last_executed,
{
    let next = prev.remove(j);
    assert forall|k: int| 0 <= k < next.len() implies old.contains(#[trigger] next[k]) by {
        let k2 = if k < j { k } else { k + 1 };
        assert(next[k] == prev[k2]);
    }
    assert forall|a: int, b: int| 0 <= a < next.len() && 0 <= b < next.len() && a != b implies next[a].query@ != next[b].query@ by {
        let a2 = if a < j { a } else { a + 1 };
        let b2 = if b < j { b } else { b + 1 };
        assert(next[a] == prev[a2]);
        assert(next[b] == prev[b2]);
    }
    assert forall|a: int, k: int|
        0 <= a < old.len() && 0 <= k < next.len() && !has_query(next, old[a].query@) implies (#[trigger] old[a]).last_executed
            <= (#[trigger] next[k]).last_executed by {
        let k2 = if k < j { k } else { k + 1 };
        assert(next[k] == prev[k2]);
        if has_query(prev, old[a].query@) {
            let p = choose|p: int| 0 <= p < prev.len() && #[trigger] prev[p].query@ == old[a].query@;
            if p != j {
                let p2 = if p < j { p } else { p - 1 };
                assert(next[p2] == prev[p]);
                assert(next[p2].query@ == old[a].query@);
                assert(false);
            }
            assert(old.contains(prev[j]));
            let m = choose|m: int| 0 <= m < old.len() && old[m] == prev[j];
            assert(old[m].query@ == old[a].query@);
            assert(m == a);
        }
    }
}

impl ProductionSearchAnalytics {
    /// Keeps only the latest `max_performance_records` log entries.
    pub fn cleanup_performance_records(&mut self)
        ensures
            final(self).settings() == old(self).settings(),
            final(self).queries() == old(self).queries(),
            final(self).metrics() == old(self).metrics(),
            final(self).log() == if old(self).log().len() > old(self).settings().max_performance_records {
                old(self).log().skip(old(self).log().len() - old(self).settings().max_performance_records)
            } else {
                old(self).log()
            },
    {
        proof {
            use_type_invariant(&*self);
        }
        if self.performance_data.len() > self.config.max_performance_records {
            let excess = self.performance_data.len() - self.config.max_performance_records;
            let mut log: Vec<PerformanceRecord> = Vec::new();
            std::mem::swap(&mut log, &mut self.performance_data);
            let ghost l0 = log@;
            let rest = log.split_off(excess);
            assert(rest@ =~= l0.skip(excess as int));
            self.performance_data = rest;
        }
    }

    /// Drops the queries that ran earliest until at most
    /// `max_tracked_queries` are tracked.
    pub fn cleanup_query_stats(&mut self)
        ensures
            final(self).settings() == old(self).settings(),
            final(self).metrics() == old(self).metrics(),
            final(self).log() == old(self).log(),
            oldest_dropped(old(self).queries(), final(self).queries(), old(self).settings().max_tracked_queries as nat),
    {
        proof {
            use_type_invariant(&*self);
        }
        let max = self.config.max_tracked_queries;
        let mut qs: Vec<QueryStats> = Vec::new();
        std::mem::swap(&mut qs, &mut self.query_stats);
        let ghost orig = qs@;
        proof {
            assert forall|k: int| 0 <= k < orig.len() implies orig.contains(#[trigger] orig[k]) by {}
        }
        while qs.len() > max
            invariant
                unique_queries(orig),
                sources_unique(orig),
                forall|k: int| 0 <= k < qs@.len() ==> orig.contains(#[trigger] qs@[k]),
                unique_queries(qs@),
                qs@.len() <= orig.len(),
                orig.len() > max ==> qs@.len() >= max,
                orig.len() <= max ==> qs@ == orig,
                forall|a: int, k: int|
                    0 <= a < orig.len() && 0 <= k < qs@.len() && !has_query(qs@, orig[a].query@)
                        ==> (#[trigger] orig[a]).last_executed <= (#[trigger] qs@[k]).last_executed,
            decreases qs@.len(),
        {
            let mut j: usize = 0;
            let mut i: usize = 1;
            while i < qs.len()
                invariant
                    1 <= i <= qs.len(),
                    j < qs.len(),
                    forall|k: int| 0 <= k < i ==> (#[trigger] qs@[k]).last_executed >= qs@[j as int].last_executed,
                decreases qs.len() - i,
            {
                if qs[i].last_executed < qs[j].last_executed {
                    j = i;
                }
                i = i + 1;
            }
            let ghost prev = qs@;
            proof {
                lemma_drop_oldest_step(orig, prev, j as int);
            }
            qs.remove(j);
            assert(qs@ == prev.remove(j as int));
        }
        proof {
            assert forall|k: int| 0 <= k < qs@.len() implies unique_names((#[trigger] qs@[k]).result_sources@) by {
                assert(orig.contains(qs@[k]));
            }
        }
        self.query_stats = qs;
    }

    /// Overall counts and searches per collection.
    pub fn get_search_trends(&self) -> (t: SearchTrends)
        ensures
            t.total_searches == self.metrics().total_searches,
            t.unique_queries == self.metrics().unique_queries,
            t.top_categories@ == self.metrics().collections_searched@,
    {
        SearchTrends {
            total_searches: self.search_metrics.total_searches,
            unique_queries: self.search_metrics.unique_queries,
            top_categories: copy_counts(&self.search_metrics.collections_searched),
        }
    }

    /// A summary: the counters, the counts of every query in turn, searches
    /// per collection, and the last ten searches logged, latest first.
    pub fn get_analytics_summary(&self) -> (r: AnalyticsSummary)
        ensures
            r.total_searches == self.metrics().total_searches,
            r.unique_queries == self.metrics().unique_queries,
            r.successful_searches == self.metrics().successful_searches,
            r.query_enhancement_count == self.metrics().query_enhancement_count,
            r.result_ranking_count == self.metrics().result_ranking_count,
            r.top_queries@.len() == self.queries().len(),
            forall|k: int| 0 <= k < self.queries().len() ==> {
                &&& (#[trigger] r.top_queries@[k]).query@ == self.queries()[k].query@
                &&& r.top_queries@[k].count == self.queries()[k].count
                &&& r.top_queries@[k].total_results == self.queries()[k].total_results
                &&& r.top_queries@[k].success_count == self.queries()[k].success_count
            },
            r.collections_searched@ == self.metrics().collections_searched@,
            r.recent_performance@.len() == if self.log().len() < 10 { self.log().len() } else { 10 },
            forall|k: int| 0 <= k < r.recent_performance@.len() ==> same_record(
                #[trigger] r.recent_performance@[k],
                self.log()[self.log().len() - 1 - k],
            ),
    {
        let mut top: Vec<PopularQuery> = Vec::new();
        let mut i: usize = 0;
        while i < self.query_stats.len()
            invariant
                i <= self.query_stats.len(),
                top@.len() == i,
                forall|k: int| 0 <= k < i ==> {
                    &&& (#[trigger] top@[k]).query@ == self.queries()[k].query@
                    &&& top@[k].count == self.queries()[k].count
                    &&& top@[k].total_results == self.queries()[k].total_results
                    &&& top@[k].success_count == self.queries()[k].success_count
                },
            decreases self.query_stats.len() - i,
        {
            let st = &self.query_stats[i];
            top.push(PopularQuery {
                query: st.query.clone(),
                count: st.count,
                total_results: st.total_results,
                success_count: st.success_count,
            });
            i = i + 1;
        }
        let n = self.performance_data.len();
        let take: usize = if n < 10 { n } else { 10 };
        let mut recent: Vec<PerformanceRecord> = Vec::new();
        let mut k: usize = 0;
        while k < take
            invariant
                k <= take,
                n == self.log().len(),
                take <= n,
                recent@.len() == k,
                forall|m: int| 0 <= m < k ==> same_record(#[trigger] recent@[m], self.log()[n - 1 - m]),
            decreases take - k,
        {
            recent.push(copy_record(&self.performance_data[n - 1 - k]));
            k = k + 1;
        }
        AnalyticsSummary {
            total_searches: self.search_metrics.total_searches,
            unique_queries: self.search_metrics.unique_queries,
            successful_searches: self.search_metrics.successful_searches,
            query_enhancement_count: self.search_metrics.query_enhancement_count,
            result_ranking_count: self.search_metrics.result_ranking_count,
            top_queries: top,
            collections_searched: copy_counts(&self.search_metrics.collections_searched),
            recent_performance: recent,
        }
    }
}

impl ProductionSearchAnalytics {
    /// Records search `e` at the current time, as `record_search_at`.
    pub fn record_search(&mut self, e: SearchEvent)
        requires
            old(self).room_for(e),
        ensures
            final(self).settings() == old(self).settings(),
            metrics_after(old(self).metrics(), final(self).metrics(), e, final(self).queries().len()),
            final(self).metrics().total_searches == final(self).metrics().successful_searches
                + final(self).metrics().failed_searches,
            exists|ts: i64| {
                &&& #[trigger] stats_after(old(self).queries(), final(self).queries(), e, ts)
                &&& if old(self).settings().enable_performance_tracking {
                    &&& final(self).log().len() == old(self).log().len() + 1
                    &&& final(self).log().drop_last() == old(self).log()
                    &&& logged(final(self).log().last(), e, ts)
                } else {
                    final(self).log() == old(self).log()
                }
            },
    {
        let ts = crate::time::unix_timestamp_millis();
        self.record_search_at(e, ts);
        assert(stats_after(old(self).queries(), self.queries(), e, ts));
    }
}

/// Every search counted is counted as a success or as a failure, and stays
/// so as searches are recorded.
pub proof fn law_searches_split(m: SearchMetrics, t: SearchMetrics, e: SearchEvent, unique: nat)
    requires
        m.total_searches == m.successful_searches + m.failed_searches,
        metrics_after(m, t, e, unique),
    ensures
        t.total_searches == t.successful_searches + t.failed_searches,
{
}

/// Recording a search of a query already tracked adds no entry; one of a new
/// query adds exactly one. Either way the query is tracked afterwards.
pub proof fn law_record_tracks_query(qs: Seq<QueryStats>, t: Seq<QueryStats>, e: SearchEvent, ts: i64)
    requires
        stats_after(qs, t, e, ts),
    ensures
        has_query(qs, e.query@) ==> t.len() == qs.len(),
        !has_query(qs, e.query@) ==> t.len() == qs.len() + 1,
        has_query(t, e.query@),
{
    if has_query(qs, e.query@) {
        let i = choose|i: int| 0 <= i < qs.len() && #[trigger] qs[i].query@ == e.query@;
        assert(t[i].query@ == e.query@);
    } else {
        assert(t[t.len() - 1].query@ == e.query@);
    }
}

/// `a` and `b` log the same search.
pub open spec fn same_record(a: PerformanceRecord, b: PerformanceRecord) -> bool {
    &&& a.timestamp == b.timestamp
    &&& a.query@ == b.query@
    &&& a.collection == b.collection
    &&& a.result_count == b.result_count
    &&& a.query_enhancement_applied == b.query_enhancement_applied
    &&& a.ranking_method == b.ranking_method
    &&& a.success == b.success
    &&& a.error_details == b.error_details
}

/// A copy of an optional string.
fn copy_opt(s: &Option<String>) -> (r: Option<String>)
    ensures
        r == *s,
{
    match s {
        Some(v) => Some(v.clone()),
        None => None,
    }
}

/// A copy of a log entry.
fn copy_record(r: &PerformanceRecord) -> (c: PerformanceRecord)
    ensures
        same_record(c, *r),
{
    PerformanceRecord {
        timestamp: r.timestamp,
        query: r.query.clone(),
        collection: copy_opt(&r.collection),
        result_count: r.result_count,
        query_enhancement_applied: r.query_enhancement_applied,
        ranking_method: copy_opt(&r.ranking_method),
        success: r.success,
        error_details: copy_opt(&r.error_details),
    }
}

/// A copy of a list of counts.
fn copy_counts(m: &Vec<(String, usize)>) -> (r: Vec<(String, usize)>)
    ensures
        r@ == m@,
{
    let mut r: Vec<(String, usize)> = Vec::new();
    let mut i: usize = 0;
    while i < m.len()
        invariant
            i <= m.len(),
            r@ == m@.take(i as int),
        decreases m.len() - i,
    {
        r.push((m[i].0.clone(), m[i].1));
        assert(r@ =~= m@.take(i + 1));
        i = i + 1;
    }
    assert(m@.take(m.len() as int) == m@);
    r
}

/// Raises the counts of each of `keys` in turn.
pub fn bump_all(m: &mut Vec<(String, usize)>, keys: &Vec<String>)
    requires
        unique_names(old(m)@),
        keys@.len() < usize::MAX,
        counts_below(old(m)@, keys@.len() as nat),
    ensures
        final(m)@ == bumped_all(old(m)@, keys@),
        unique_names(final(m)@),
{
    let mut i: usize = 0;
    while i < keys.len()
        invariant
            i <= keys.len(),
            keys@.len() < usize::MAX,
            unique_names(m@),
            m@ == bumped_all(old(m)@, keys@.take(i as int)),
            counts_below(m@, (keys@.len() - i) as nat),
        decreases keys.len() - i,
    {
        assert(keys@.take(i + 1).drop_last() == keys@.take(i as int));
        assert(keys@.take(i + 1).last() == keys@[i as int]);
        bump(m, &keys[i]);
        assert(counts_below(m@, (keys@.len() - i - 1) as nat));
        i = i + 1;
    }
    assert(keys@.take(keys.len() as int) == keys@);
}


/// A recorded search counts as successful exactly when it returned at least
/// one result, and as failed exactly when it returned none: in the overall
/// counters, in its query's statistics and in its log entry.
pub proof fn law_success_means_results(
    m: SearchMetrics,
    t: SearchMetrics,
    e: SearchEvent,
    unique: nat,
    s: QueryStats,
    u: QueryStats,
    ts: i64,
    r: PerformanceRecord,
)
    ensures
        metrics_after(m, t, e, unique) ==> {
            &&& (e.result_count >= 1 ==> t.successful_searches == m.successful_searches + 1
                && t.failed_searches == m.failed_searches)
            &&& (e.result_count == 0 ==> t.failed_searches == m.failed_searches + 1
                && t.successful_searches == m.successful_searches)
        },
        query_stats_step(s, u, e, ts) ==> {
            &&& (e.result_count >= 1 ==> u.success_count == s.success_count + 1 && u.failure_count == s.failure_count)
            &&& (e.result_count == 0 ==> u.failure_count == s.failure_count + 1 && u.success_count == s.success_count)
        },
        logged(r, e, ts) ==> (r.success <==> e.result_count >= 1),
{
}

} // verus!
