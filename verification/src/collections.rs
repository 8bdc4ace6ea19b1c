//! Collections: named groups of documents, each with its own vector and
//! search settings and statistics, created under a limit and a unique name.

use vstd::prelude::*;
use crate::env::{env_bool, env_flag, env_lookup, env_number, env_u64, env_usize, env_view, lookup};
use crate::text::{chars_of, lowercase_of, push_signed_decimal, push_str, signed_decimal, str_eq, string_from_chars, string_views, to_lowercase, decimal};
use crate::json::copy_fields;
use crate::time::unix_timestamp;

verus! {

/// How a collection's vectors are stored.
#[derive(Debug, Clone)]
pub struct VectorStoreConfig {
    pub dimension: usize,
    pub metric: String,
    pub index_type: String,
    pub index_params: Vec<(String, serde_json::Value)>,
    pub max_vectors: Option<usize>,
}

/// How a collection is searched.
#[derive(Debug, Clone)]
pub struct SearchConfig {
    pub default_limit: usize,
    pub max_limit: usize,
    pub enable_metadata_filtering: bool,
}

/// A collection.
#[derive(Debug, Clone)]
pub struct CollectionConfig {
    pub id: String,
    pub name: String,
    pub description: Option<String>,
    pub vector_config: VectorStoreConfig,
    pub search_config: SearchConfig,
    pub created_at: u64,
    pub updated_at: u64,
    pub metadata: Vec<(String, serde_json::Value)>,
    pub active: bool,
}

/// Counts kept for a collection.
#[derive(Debug, Clone)]
pub struct CollectionStats {
    pub collection_id: String,
    pub document_count: u64,
    pub total_size_bytes: u64,
    pub total_searches: u64,
    pub last_updated: u64,
}

/// A request to create a collection.
#[derive(Debug, Clone)]
pub struct CreateCollectionRequest {
    pub name: String,
    pub description: Option<String>,
    pub vector_config: VectorStoreConfig,
    pub search_config: Option<SearchConfig>,
    pub metadata: Option<Vec<(String, serde_json::Value)>>,
}

/// A request to change a collection; unset fields stay as they are.
#[derive(Debug, Clone)]
pub struct UpdateCollectionRequest {
    pub name: Option<String>,
    pub description: Option<String>,
    pub search_config: Option<SearchConfig>,
    pub metadata: Option<Vec<(String, serde_json::Value)>>,
    pub active: Option<bool>,
}

/// Settings of the collection manager.
#[derive(Debug, Clone)]
pub struct CollectionManagerConfig {
    pub default_vector_dimension: usize,
    pub default_search_limit: usize,
    pub max_collections: usize,
    pub stats_update_interval: u64,
    pub enable_auto_optimization: bool,
    /// Where collections keep their files.
    pub data_directory: String,
}

/// The manager settings read from `env`.
pub open spec fn manager_config_from(env: Seq<(Seq<char>, Seq<char>)>, c: CollectionManagerConfig) -> bool {
    &&& c.default_vector_dimension == env_number(env, "COLLECTION_DEFAULT_DIMENSION"@, usize::MAX as nat, 384)
    &&& c.default_search_limit == env_number(env, "COLLECTION_DEFAULT_SEARCH_LIMIT"@, usize::MAX as nat, 10)
    &&& c.max_collections == env_number(env, "COLLECTION_MAX_COLLECTIONS"@, usize::MAX as nat, 100)
    &&& c.stats_update_interval == env_number(env, "COLLECTION_STATS_UPDATE_INTERVAL"@, u64::MAX as nat, 300)
    &&& c.enable_auto_optimization == env_flag(env, "COLLECTION_AUTO_OPTIMIZATION"@, true)
    &&& c.data_directory@ == match lookup(env, "COLLECTION_DATA_DIRECTORY"@) {
        Some(v) => v,
        None => "./data/collections"@,
    }
}

impl CollectionManagerConfig {
    /// The settings from the given environment variables.
    pub fn from_env(env: &Vec<(String, String)>) -> (c: Self)
        ensures
            manager_config_from(env_view(env@), c),
    {
        CollectionManagerConfig {
            default_vector_dimension: env_usize(env, "COLLECTION_DEFAULT_DIMENSION", 384),
            default_search_limit: env_usize(env, "COLLECTION_DEFAULT_SEARCH_LIMIT", 10),
            max_collections: env_usize(env, "COLLECTION_MAX_COLLECTIONS", 100),
            stats_update_interval: env_u64(env, "COLLECTION_STATS_UPDATE_INTERVAL", u64::MAX, 300),
            enable_auto_optimization: env_bool(env, "COLLECTION_AUTO_OPTIMIZATION", true),
            data_directory: match env_lookup(env, "COLLECTION_DATA_DIRECTORY") {
                Some(v) => v,
                None => "./data/collections".to_owned(),
            },
        }
    }
}

impl Default for CollectionManagerConfig {
    /// The settings with no variable set.
    fn default() -> (c: Self)
        ensures
            manager_config_from(Seq::empty(), c),
    {
        let env: Vec<(String, String)> = Vec::new();
        assert(env_view(env@) =~= Seq::empty());
        CollectionManagerConfig::from_env(&env)
    }
}

/// Why a collection request was refused.
#[derive(Debug, Clone)]
pub enum CollectionError {
    /// The manager holds as many collections as it may.
    LimitReached { max_collections: usize },
    /// A collection already has this name.
    DuplicateName { name: String },
    /// No collection has this id.
    NotFound { collection_id: String },
}

/// The message of a collection error.
pub open spec fn error_text(e: CollectionError) -> Seq<char> {
    match e {
        CollectionError::LimitReached { max_collections } => "Maximum number of collections ("@ + decimal(
            max_collections as nat,
        ) + ") reached"@,
        CollectionError::DuplicateName { name } => "Collection with name '"@ + name@ + "' already exists"@,
        CollectionError::NotFound { collection_id } => "Collection '"@ + collection_id@ + "' not found"@,
    }
}

impl CollectionError {
    /// The error's message.
    pub fn message(&self) -> (r: String)
        ensures
            r@ == error_text(*self),
    {
        match self {
            CollectionError::LimitReached { max_collections } => {
                let mut r = "Maximum number of collections (".to_owned();
                let n = crate::text::u64_to_string(*max_collections as u64);
                push_str(&mut r, n.as_str());
                push_str(&mut r, ") reached");
                r
            },
            CollectionError::DuplicateName { name } => {
                let mut r = "Collection with name '".to_owned();
                push_str(&mut r, name.as_str());
                push_str(&mut r, "' already exists");
                r
            },
            CollectionError::NotFound { collection_id } => {
                let mut r = "Collection '".to_owned();
                push_str(&mut r, collection_id.as_str());
                push_str(&mut r, "' not found");
                r
            },
        }
    }
}

/// Whether a character is alphanumeric in Unicode's sense (alphabetic or
/// numeric), as `char::is_alphanumeric` decides from the Unicode tables.
pub uninterp spec fn unicode_alphanumeric(c: char) -> bool;

/// `char::is_alphanumeric`.
#[verifier::external_body]
fn char_is_alphanumeric(c: char) -> (r: bool)
    ensures
        r == unicode_alphanumeric(c),
{
    c.is_alphanumeric()
}

/// The characters of a name kept in ids: alphanumerics, hyphens, underscores.
pub open spec fn id_char(c: char) -> bool {
    unicode_alphanumeric(c) || c == '-' || c == '_'
}

/// The characters of `s` that may stand in an id, in order.
pub open spec fn id_chars(s: Seq<char>) -> Seq<char>
    decreases s.len(),
{
    if s.len() == 0 {
        s
    } else if id_char(s.last()) {
        id_chars(s.drop_last()).push(s.last())
    } else {
        id_chars(s.drop_last())
    }
}

/// The id of a collection named `name` made at `timestamp`: the name's id
/// characters in lower case, `_` and the timestamp.
pub open spec fn collection_id_for(name: Seq<char>, timestamp: int) -> Seq<char> {
    lowercase_of(id_chars(name)) + "_"@ + signed_decimal(timestamp)
}

/// The id a collection named `name` gets at `timestamp`.
pub fn generate_collection_id(name: &str, timestamp: i64) -> (r: String)
    ensures
        r@ == collection_id_for(name@, timestamp as int),
{
    let cs = chars_of(name);
    let mut kept: Vec<char> = Vec::new();
    let mut i: usize = 0;
    while i < cs.len()
        invariant
            i <= cs.len(),
            cs@ == name@,
            kept@ == id_chars(cs@.take(i as int)),
        decreases cs.len() - i,
    {
        let c = cs[i];
        assert(cs@.take(i + 1).drop_last() == cs@.take(i as int));
        if char_is_alphanumeric(c) || c == '-' || c == '_' {
            kept.push(c);
        }
        i = i + 1;
    }
    assert(cs@.take(cs.len() as int) == cs@);
    let sanitized = string_from_chars(&kept);
    let lower = to_lowercase(sanitized.as_str());
    let mut v = chars_of(lower.as_str());
    v.push('_');
    push_signed_decimal(&mut v, timestamp);
    proof {
        reveal_strlit("_");
    }
    let r = string_from_chars(&v);
    assert(r@ =~= collection_id_for(name@, timestamp as int));
    r
}


/// Some collection has id `id`.
pub open spec fn has_collection(cs: Seq<CollectionConfig>, id: Seq<char>) -> bool {
    exists|i: int| 0 <= i < cs.len() && #[trigger] cs[i].id@ == id
}

/// Some collection has name `name`.
pub open spec fn name_taken(cs: Seq<CollectionConfig>, name: Seq<char>) -> bool {
    exists|i: int| 0 <= i < cs.len() && #[trigger] cs[i].name@ == name
}

/// The ids of the active collections, in order.
pub open spec fn active_ids(cs: Seq<CollectionConfig>) -> Seq<Seq<char>>
    decreases cs.len(),
{
    if cs.len() == 0 {
        Seq::empty()
    } else if cs.last().active {
        active_ids(cs.drop_last()).push(cs.last().id@)
    } else {
        active_ids(cs.drop_last())
    }
}

/// No collection id occurs twice.
pub open spec fn unique_collection_ids(cs: Seq<CollectionConfig>) -> bool {
    forall|i: int, j: int| 0 <= i < cs.len() && 0 <= j < cs.len() && i != j ==> cs[i].id@ != cs[j].id@
}

/// No statistics id occurs twice.
pub open spec fn unique_stats_ids(ss: Seq<CollectionStats>) -> bool {
    forall|i: int, j: int| 0 <= i < ss.len() && 0 <= j < ss.len() && i != j ==> ss[i].collection_id@ != ss[j].collection_id@
}

/// `a` and `b` hold the same collection: equal fields, and lists of equal
/// entries.
pub open spec fn config_matches(a: CollectionConfig, b: CollectionConfig) -> bool {
    &&& a.id == b.id
    &&& a.name == b.name
    &&& a.description == b.description
    &&& a.vector_config.dimension == b.vector_config.dimension
    &&& a.vector_config.metric == b.vector_config.metric
    &&& a.vector_config.index_type == b.vector_config.index_type
    &&& a.vector_config.index_params@ == b.vector_config.index_params@
    &&& a.vector_config.max_vectors == b.vector_config.max_vectors
    &&& a.search_config == b.search_config
    &&& a.created_at == b.created_at
    &&& a.updated_at == b.updated_at
    &&& a.metadata@ == b.metadata@
    &&& a.active == b.active
}

/// A copy of collection `c`.
pub fn copy_config(c: &CollectionConfig) -> (r: CollectionConfig)
    ensures
        config_matches(r, *c),
{
    let description = match &c.description {
        Some(d) => Some(d.clone()),
        None => None,
    };
    CollectionConfig {
        id: c.id.clone(),
        name: c.name.clone(),
        description,
        vector_config: VectorStoreConfig {
            dimension: c.vector_config.dimension,
            metric: c.vector_config.metric.clone(),
            index_type: c.vector_config.index_type.clone(),
            index_params: copy_fields(&c.vector_config.index_params),
            max_vectors: c.vector_config.max_vectors,
        },
        search_config: SearchConfig {
            default_limit: c.search_config.default_limit,
            max_limit: c.search_config.max_limit,
            enable_metadata_filtering: c.search_config.enable_metadata_filtering,
        },
        created_at: c.created_at,
        updated_at: c.updated_at,
        metadata: copy_fields(&c.metadata),
        active: c.active,
    }
}

/// `c` is the collection made from `request` under `settings` at
/// `timestamp`: its id from the name and the timestamp, active, created and
/// updated at the timestamp, with the request's settings, its search
/// settings or else the default limit and ten times it as maximum, and its
/// metadata or none.
pub open spec fn new_collection(c: CollectionConfig, request: CreateCollectionRequest, settings: CollectionManagerConfig, timestamp: i64) -> bool {
    &&& c.id@ == collection_id_for(request.name@, timestamp as int)
    &&& c.name == request.name
    &&& c.description == request.description
    &&& c.vector_config == request.vector_config
    &&& c.search_config == match request.search_config {
        Some(sc) => sc,
        None => SearchConfig {
            default_limit: settings.default_search_limit,
            max_limit: (settings.default_search_limit * 10) as usize,
            enable_metadata_filtering: true,
        },
    }
    &&& c.created_at == timestamp as u64
    &&& c.updated_at == timestamp as u64
    &&& match request.metadata {
        Some(m) => c.metadata == m,
        None => c.metadata@.len() == 0,
    }
    &&& c.active
}

/// The collections with `c` stored: in place of the one with its id, or else
/// after the others.
pub open spec fn store_collection(cs: Seq<CollectionConfig>, c: CollectionConfig) -> Seq<CollectionConfig> {
    if has_collection(cs, c.id@) {
        cs.update(choose|i: int| 0 <= i < cs.len() && #[trigger] cs[i].id@ == c.id@, c)
    } else {
        cs.push(c)
    }
}

/// The statistics with `st` stored: in place of those of its collection, or
/// else after the others.
pub open spec fn store_stats(ss: Seq<CollectionStats>, st: CollectionStats) -> Seq<CollectionStats> {
    if exists|i: int| 0 <= i < ss.len() && #[trigger] ss[i].collection_id@ == st.collection_id@ {
        ss.update(choose|i: int| 0 <= i < ss.len() && #[trigger] ss[i].collection_id@ == st.collection_id@, st)
    } else {
        ss.push(st)
    }
}

/// The statistics of a new collection `id` at `now`: nothing counted yet.
pub open spec fn fresh_stats(st: CollectionStats, id: Seq<char>, now: u64) -> bool {
    &&& st.collection_id@ == id
    &&& st.document_count == 0
    &&& st.total_size_bytes == 0
    &&& st.total_searches == 0
    &&& st.last_updated == now
}

/// What creating a collection from `request` at `timestamp` does to
/// collections `cs` and statistics `ss` (giving `after_cs` and `after_ss`)
/// and answers: refused when the manager is full, then when the name is
/// taken, changing nothing; otherwise the new collection is stored with
/// fresh statistics (both then found under its id) and a copy of it is the
/// answer.
pub open spec fn creation_outcome(
    cs: Seq<CollectionConfig>,
    ss: Seq<CollectionStats>,
    settings: CollectionManagerConfig,
    request: CreateCollectionRequest,
    timestamp: i64,
    after_cs: Seq<CollectionConfig>,
    after_ss: Seq<CollectionStats>,
    r: Result<CollectionConfig, CollectionError>,
) -> bool {
    if cs.len() >= settings.max_collections {
        &&& r == Err::<CollectionConfig, CollectionError>(CollectionError::LimitReached { max_collections: settings.max_collections })
        &&& after_cs == cs
        &&& after_ss == ss
    } else if name_taken(cs, request.name@) {
        &&& r == Err::<CollectionConfig, CollectionError>(CollectionError::DuplicateName { name: request.name })
        &&& after_cs == cs
        &&& after_ss == ss
    } else {
        exists|stored: CollectionConfig, st: CollectionStats|
            #[trigger] new_collection(stored, request, settings, timestamp) && #[trigger] fresh_stats(st, stored.id@, timestamp as u64) && {
                &&& after_cs == store_collection(cs, stored)
                &&& after_ss == store_stats(ss, st)
                &&& after_cs.contains(stored)
                &&& after_ss.contains(st)
                &&& r matches Ok(c) && config_matches(c, stored)
            }
    }
}

/// The collection as `request` changes it at `now`.
pub open spec fn updated_collection(c: CollectionConfig, request: UpdateCollectionRequest, now: u64) -> CollectionConfig {
    CollectionConfig {
        name: match request.name {
            Some(n) => n,
            None => c.name,
        },
        description: match request.description {
            Some(d) => Some(d),
            None => c.description,
        },
        search_config: match request.search_config {
            Some(sc) => sc,
            None => c.search_config,
        },
        metadata: match request.metadata {
            Some(m) => m,
            None => c.metadata,
        },
        active: match request.active {
            Some(a) => a,
            None => c.active,
        },
        updated_at: now,
        ..c
    }
}

/// What updating collection `id` with `request` at `now` does: an unknown id
/// is refused as not found and nothing changes; otherwise the collection is
/// changed in place.
pub open spec fn update_outcome(
    cs: Seq<CollectionConfig>,
    after: Seq<CollectionConfig>,
    id: Seq<char>,
    request: UpdateCollectionRequest,
    now: u64,
    r: Result<(), CollectionError>,
) -> bool {
    &&& !has_collection(cs, id) ==> after == cs && (r matches Err(CollectionError::NotFound { collection_id })
        && collection_id@ == id)
    &&& forall|i: int|
        0 <= i < cs.len() && #[trigger] cs[i].id@ == id ==> r is Ok && after == cs.update(
            i,
            updated_collection(cs[i], request, now),
        )
}

/// Statistics with those of collection `id` marked updated at `now`, or
/// fresh (empty) statistics for it appended.
pub open spec fn touched(ss: Seq<CollectionStats>, id: String, now: u64) -> Seq<CollectionStats> {
    if exists|k: int| 0 <= k < ss.len() && #[trigger] ss[k].collection_id@ == id@ {
        let k = choose|k: int| 0 <= k < ss.len() && #[trigger] ss[k].collection_id@ == id@;
        ss.update(k, CollectionStats { last_updated: now, ..ss[k] })
    } else {
        ss.push(CollectionStats { collection_id: id, document_count: 0, total_size_bytes: 0, total_searches: 0, last_updated: now })
    }
}

/// Statistics after refreshing every active collection of `cs` in turn.
pub open spec fn refreshed(ss: Seq<CollectionStats>, cs: Seq<CollectionConfig>, now: u64) -> Seq<CollectionStats>
    decreases cs.len(),
{
    if cs.len() == 0 {
        ss
    } else if cs.last().active {
        touched(refreshed(ss, cs.drop_last(), now), cs.last().id, now)
    } else {
        refreshed(ss, cs.drop_last(), now)
    }
}

/// Holds the collections and their statistics.
pub struct CollectionManager {
    collections: Vec<CollectionConfig>,
    statistics: Vec<CollectionStats>,
    config: CollectionManagerConfig,
}

impl CollectionManager {
    #[verifier::type_invariant]
    spec fn inv(self) -> bool {
        unique_collection_ids(self.collections@) && unique_stats_ids(self.statistics@)
    }

    /// The collections, in the order they were made.
    pub closed spec fn collections(&self) -> Seq<CollectionConfig> {
        self.collections@
    }

    /// The statistics kept.
    pub closed spec fn stats(&self) -> Seq<CollectionStats> {
        self.statistics@
    }

    /// The settings.
    pub closed spec fn settings(&self) -> CollectionManagerConfig {
        self.config
    }

    /// A manager with no collections.
    pub fn new(config: CollectionManagerConfig) -> (m: Self)
        ensures
            m.collections() == Seq::<CollectionConfig>::empty(),
            m.stats() == Seq::<CollectionStats>::empty(),
            m.settings() == config,
    {
        CollectionManager { collections: Vec::new(), statistics: Vec::new(), config }
    }

    /// The configuration of a collection made from `request` under `id` at
    /// `now`: active, with the request's settings, its search settings or else
    /// the default limit and ten times it as maximum, and its metadata or none.
    pub fn prepare_collection_config(&self, request: CreateCollectionRequest, id: String, now: u64) -> (c: CollectionConfig)
        requires
            request.search_config is None ==> self.settings().default_search_limit * 10 <= usize::MAX,
        ensures
            c.id == id,
            c.name == request.name,
            c.description == request.description,
            c.vector_config == request.vector_config,
            c.search_config == match request.search_config {
                Some(sc) => sc,
                None => SearchConfig {
                    default_limit: self.settings().default_search_limit,
                    max_limit: (self.settings().default_search_limit * 10) as usize,
                    enable_metadata_filtering: true,
                },
            },
            c.created_at == now,
            c.updated_at == now,
            match request.metadata {
                Some(m) => c.metadata == m,
                None => c.metadata@.len() == 0,
            },
            c.active,
    {
        let search_config = match request.search_config {
            Some(sc) => sc,
            None => SearchConfig {
                default_limit: self.config.default_search_limit,
                max_limit: self.config.default_search_limit * 10,
                enable_metadata_filtering: true,
            },
        };
        let metadata = match request.metadata {
            Some(m) => m,
            None => Vec::new(),
        };
        CollectionConfig {
            id,
            name: request.name,
            description: request.description,
            vector_config: request.vector_config,
            search_config,
            created_at: now,
            updated_at: now,
            metadata,
            active: true,
        }
    }

    /// Whether some collection is named `name`.
    fn name_in_use(&self, name: &str) -> (r: bool)
        ensures
            r == name_taken(self.collections(), name@),
    {
        let mut i: usize = 0;
        while i < self.collections.len()
            invariant
                i <= self.collections.len(),
                forall|k: int| 0 <= k < i ==> self.collections@[k].name@ != name@,
            decreases self.collections.len() - i,
        {
            if str_eq(self.collections[i].name.as_str(), name) {
                assert(self.collections@[i as int].name@ == name@);
                return true;
            }
            i = i + 1;
        }
        false
    }

    /// The index of the collection with id `id`.
    fn position(&self, id: &str) -> (r: Option<usize>)
        ensures
            match r {
                Some(i) => i < self.collections().len() && self.collections()[i as int].id@ == id@,
                None => !has_collection(self.collections(), id@),
            },
    {
        let mut i: usize = 0;
        while i < self.collections.len()
            invariant
                i <= self.collections.len(),
                forall|k: int| 0 <= k < i ==> self.collections@[k].id@ != id@,
            decreases self.collections.len() - i,
        {
            if str_eq(self.collections[i].id.as_str(), id) {
                return Some(i);
            }
            i = i + 1;
        }
        None
    }

    /// The index of the statistics of collection `id`.
    fn stats_position(&self, id: &str) -> (r: Option<usize>)
        ensures
            match r {
                Some(i) => i < self.stats().len() && self.stats()[i as int].collection_id@ == id@,
                None => forall|k: int| 0 <= k < self.stats().len() ==> (#[trigger] self.stats()[k]).collection_id@ != id@,
            },
    {
        let mut i: usize = 0;
        while i < self.statistics.len()
            invariant
                i <= self.statistics.len(),
                forall|k: int| 0 <= k < i ==> self.statistics@[k].collection_id@ != id@,
            decreases self.statistics.len() - i,
        {
            if str_eq(self.statistics[i].collection_id.as_str(), id) {
                return Some(i);
            }
            i = i + 1;
        }
        None
    }

    /// Creates a collection from `request` at `timestamp`: refused when the
    /// manager is full or the name is taken; otherwise the collection is
    /// stored (in place of one with the same id, if any) with zeroed
    /// statistics, and a copy of it is returned.
    pub fn create_collection_at(&mut self, request: CreateCollectionRequest, timestamp: i64) -> (r: Result<CollectionConfig, CollectionError>)
        requires
            request.search_config is None ==> old(self).settings().default_search_limit * 10 <= usize::MAX,
        ensures
            final(self).settings() == old(self).settings(),
            creation_outcome(
                old(self).collections(),
                old(self).stats(),
                old(self).settings(),
                request,
                timestamp,
                final(self).collections(),
                final(self).stats(),
                r,
            ),
    {
        proof {
            use_type_invariant(&*self);
        }
        if self.collections.len() >= self.config.max_collections {
            return Err(CollectionError::LimitReached { max_collections: self.config.max_collections });
        }
        let collection_id = generate_collection_id(request.name.as_str(), timestamp);
        if self.name_in_use(request.name.as_str()) {
            return Err(CollectionError::DuplicateName { name: request.name });
        }
        let ghost req = request;
        let config = self.prepare_collection_config(request, collection_id, timestamp as u64);
        let out = copy_config(&config);
        let stats = CollectionStats {
            collection_id: config.id.clone(),
            document_count: 0,
            total_size_bytes: 0,
            total_searches: 0,
            last_updated: timestamp as u64,
        };
        let ghost stored = config;
        let ghost st = stats;
        assert(new_collection(stored, req, self.settings(), timestamp));
        assert(fresh_stats(st, stored.id@, timestamp as u64));
        self.store_config(config);
        self.store_statistics(stats);
        proof {
            let cs = old(self).collections();
            if has_collection(cs, stored.id@) {
                let i = choose|i: int| 0 <= i < cs.len() && #[trigger] cs[i].id@ == stored.id@;
                assert(self.collections()[i] == stored);
            } else {
                assert(self.collections()[cs.len() as int] == stored);
            }
            let ss = old(self).stats();
            if exists|i: int| 0 <= i < ss.len() && #[trigger] ss[i].collection_id@ == st.collection_id@ {
                let i = choose|i: int| 0 <= i < ss.len() && #[trigger] ss[i].collection_id@ == st.collection_id@;
                assert(self.stats()[i] == st);
            } else {
                assert(self.stats()[ss.len() as int] == st);
            }
        }
        assert(config_matches(out, stored));
        Ok(out)
    }

    /// Stores `c`, in place of the collection with its id or else after the
    /// others.
    fn store_config(&mut self, c: CollectionConfig)
        ensures
            final(self).collections() == store_collection(old(self).collections(), c),
            final(self).stats() == old(self).stats(),
            final(self).settings() == old(self).settings(),
    {
        proof {
            use_type_invariant(&*self);
        }
        let ghost cs = self.collections@;
        match self.position(c.id.as_str()) {
            Some(i) => {
                let mut all: Vec<CollectionConfig> = Vec::new();
                std::mem::swap(&mut all, &mut self.collections);
                all.set(i, c);
                proof {
                    assert(cs[i as int].id@ == c.id@);
                    assert forall|a: int, b: int| 0 <= a < all@.len() && 0 <= b < all@.len() && a != b implies all@[a].id@ != all@[b].id@ by {
                        if a != i && b != i {
                            assert(all@[a] == cs[a] && all@[b] == cs[b]);
                        }
                    }
                    assert(all@ == store_collection(cs, c));
                }
                self.collections = all;
            },
            None => {
                let mut all: Vec<CollectionConfig> = Vec::new();
                std::mem::swap(&mut all, &mut self.collections);
                all.push(c);
                proof {
                    assert forall|a: int, b: int| 0 <= a < all@.len() && 0 <= b < all@.len() && a != b implies all@[a].id@ != all@[b].id@ by {
                        if a < cs.len() && b < cs.len() {
                            assert(all@[a] == cs[a] && all@[b] == cs[b]);
                        } else if a < cs.len() {
                            assert(all@[a] == cs[a]);
                        } else {
                            assert(all@[b] == cs[b]);
                        }
                    }
                    assert(all@ == store_collection(cs, c));
                }
                self.collections = all;
            },
        }
    }

    /// Stores `st`, in place of the statistics of its collection or else
    /// after the others.
    fn store_statistics(&mut self, st: CollectionStats)
        ensures
            final(self).stats() == store_stats(old(self).stats(), st),
            final(self).collections() == old(self).collections(),
            final(self).settings() == old(self).settings(),
    {
        proof {
            use_type_invariant(&*self);
        }
        let ghost ss = self.statistics@;
        match self.stats_position(st.collection_id.as_str()) {
            Some(i) => {
                let mut all: Vec<CollectionStats> = Vec::new();
                std::mem::swap(&mut all, &mut self.statistics);
                all.set(i, st);
                proof {
                    assert(ss[i as int].collection_id@ == st.collection_id@);
                    assert forall|j: int| 0 <= j < ss.len() && #[trigger] ss[j].collection_id@ == st.collection_id@ implies j == i by {}
                    assert forall|a: int, b: int| 0 <= a < all@.len() && 0 <= b < all@.len() && a != b implies all@[a].collection_id@ != all@[b].collection_id@ by {
                        if a != i && b != i {
                            assert(all@[a] == ss[a] && all@[b] == ss[b]);
                        }
                    }
                    assert(all@ == store_stats(ss, st));
                }
                self.statistics = all;
            },
            None => {
                assert forall|k: int| 0 <= k < ss.len() implies (#[trigger] ss[k]).collection_id@ != st.collection_id@ by {
                    assert(self.stats()[k] == ss[k]);
                }
                let mut all: Vec<CollectionStats> = Vec::new();
                std::mem::swap(&mut all, &mut self.statistics);
                all.push(st);
                proof {
                    assert forall|a: int, b: int| 0 <= a < all@.len() && 0 <= b < all@.len() && a != b implies all@[a].collection_id@ != all@[b].collection_id@ by {
                        if a < ss.len() && b < ss.len() {
                            assert(all@[a] == ss[a] && all@[b] == ss[b]);
                        } else if a < ss.len() {
                            assert(all@[a] == ss[a]);
                        } else {
                            assert(all@[b] == ss[b]);
                        }
                    }
                    assert(all@ == store_stats(ss, st));
                }
                self.statistics = all;
            },
        }
    }

    /// Creates a collection from `request` now, as `create_collection_at`.
    pub fn create_collection(&mut self, request: CreateCollectionRequest) -> (r: Result<CollectionConfig, CollectionError>)
        requires
            request.search_config is None ==> old(self).settings().default_search_limit * 10 <= usize::MAX,
        ensures
            final(self).settings() == old(self).settings(),
            exists|timestamp: i64|
                #[trigger] creation_outcome(
                    old(self).collections(),
                    old(self).stats(),
                    old(self).settings(),
                    request,
                    timestamp,
                    final(self).collections(),
                    final(self).stats(),
                    r,
                ),
    {
        let ghost req = request;
        let timestamp = unix_timestamp();
        let r = self.create_collection_at(request, timestamp);
        assert(creation_outcome(old(self).collections(), old(self).stats(), old(self).settings(), req, timestamp, self.collections(), self.stats(), r));
        r
    }

    /// Applies `request` to collection `id` at `now`.
    pub fn update_collection_at(&mut self, id: &str, request: UpdateCollectionRequest, now: u64) -> (r: Result<(), CollectionError>)
        ensures
            final(self).stats() == old(self).stats(),
            final(self).settings() == old(self).settings(),
            update_outcome(old(self).collections(), final(self).collections(), id@, request, now, r),
    {
        proof {
            use_type_invariant(&*self);
        }
        match self.position(id) {
            None => Err(CollectionError::NotFound { collection_id: id.to_owned() }),
            Some(i) => {
                let mut cs: Vec<CollectionConfig> = Vec::new();
                std::mem::swap(&mut cs, &mut self.collections);
                let ghost before = cs@;
                let mut c = cs.remove(i);
                if let Some(name) = request.name {
                    c.name = name;
                }
                if let Some(description) = request.description {
                    c.description = Some(description);
                }
                if let Some(search_config) = request.search_config {
                    c.search_config = search_config;
                }
                if let Some(metadata) = request.metadata {
                    c.metadata = metadata;
                }
                if let Some(active) = request.active {
                    c.active = active;
                }
                c.updated_at = now;
                let ghost c1 = c;
                cs.insert(i, c);
                proof {
                    assert(cs@ =~= before.update(i as int, c1));
                    assert forall|a: int, b: int| 0 <= a < cs@.len() && 0 <= b < cs@.len() && a != b implies cs@[a].id@ != cs@[b].id@ by {
                        assert(cs@[a].id@ == before[a].id@);
                        assert(cs@[b].id@ == before[b].id@);
                    }
                    assert forall|j: int| 0 <= j < before.len() && #[trigger] before[j].id@ == id@ implies j == i by {}
                }
                self.collections = cs;
                Ok(())
            },
        }
    }

    /// Applies `request` to collection `id` now.
    pub fn update_collection(&mut self, id: &str, request: UpdateCollectionRequest) -> (r: Result<(), CollectionError>)
        ensures
            final(self).stats() == old(self).stats(),
            final(self).settings() == old(self).settings(),
            r is Ok <==> has_collection(old(self).collections(), id@),
            exists|now: u64| #[trigger] update_outcome(old(self).collections(), final(self).collections(), id@, request, now, r),
    {
        let now = unix_timestamp() as u64;
        let r = self.update_collection_at(id, request, now);
        assert(update_outcome(old(self).collections(), self.collections(), id@, request, now, r));
        r
    }

    /// Deletes collection `id` and its statistics.
    pub fn delete_collection(&mut self, id: &str) -> (r: Result<(), CollectionError>)
        ensures
            final(self).settings() == old(self).settings(),
            !has_collection(old(self).collections(), id@) ==> final(self).collections() == old(self).collections()
                && (r matches Err(CollectionError::NotFound { collection_id }) && collection_id@ == id@),
            forall|i: int|
                0 <= i < old(self).collections().len() && #[trigger] old(self).collections()[i].id@ == id@ ==> r is Ok
                    && final(self).collections() == old(self).collections().remove(i),
            !has_collection(final(self).collections(), id@),
            forall|k: int|
                0 <= k < final(self).stats().len() ==> (#[trigger] final(self).stats()[k]).collection_id@ != id@,
            forall|k: int|
                0 <= k < old(self).stats().len() && (#[trigger] old(self).stats()[k]).collection_id@ != id@
                    ==> final(self).stats().contains(old(self).stats()[k]),
    {
        proof {
            use_type_invariant(&*self);
        }
        let ghost old_stats = self.statistics@;
        if let Some(k) = self.stats_position(id) {
            let mut ss: Vec<CollectionStats> = Vec::new();
            std::mem::swap(&mut ss, &mut self.statistics);
            let ghost before = ss@;
            ss.remove(k);
            proof {
                assert forall|a: int, b: int| 0 <= a < ss@.len() && 0 <= b < ss@.len() && a != b implies ss@[a].collection_id@ != ss@[b].collection_id@ by {
                    let a2 = if a < k { a } else { a + 1 };
                    let b2 = if b < k { b } else { b + 1 };
                    assert(ss@[a] == before[a2]);
                    assert(ss@[b] == before[b2]);
                }
                assert forall|m: int| 0 <= m < ss@.len() implies (#[trigger] ss@[m]).collection_id@ != id@ by {
                    let m2 = if m < k { m } else { m + 1 };
                    assert(ss@[m] == before[m2]);
                }
                assert forall|m: int| 0 <= m < before.len() && (#[trigger] before[m]).collection_id@ != id@ implies ss@.contains(before[m]) by {
                    let m2 = if m < k { m } else { m - 1 };
                    assert(ss@[m2] == before[m]);
                }
            }
            self.statistics = ss;
        }
        match self.position(id) {
            None => Err(CollectionError::NotFound { collection_id: id.to_owned() }),
            Some(i) => {
                let mut cs: Vec<CollectionConfig> = Vec::new();
                std::mem::swap(&mut cs, &mut self.collections);
                let ghost before = cs@;
                cs.remove(i);
                proof {
                    assert forall|a: int, b: int| 0 <= a < cs@.len() && 0 <= b < cs@.len() && a != b implies cs@[a].id@ != cs@[b].id@ by {
                        let a2 = if a < i { a } else { a + 1 };
                        let b2 = if b < i { b } else { b + 1 };
                        assert(cs@[a] == before[a2]);
                        assert(cs@[b] == before[b2]);
                    }
                    assert forall|j: int| 0 <= j < before.len() && #[trigger] before[j].id@ == id@ implies j == i by {}
                }
                self.collections = cs;
                Ok(())
            },
        }
    }

    /// Every collection.
    pub fn list_collections(&self) -> (r: &Vec<CollectionConfig>)
        ensures
            r@ == self.collections(),
    {
        &self.collections
    }

    /// Collection `id`.
    pub fn get_collection(&self, id: &str) -> (r: Option<&CollectionConfig>)
        ensures
            match r {
                Some(c) => c.id@ == id@ && self.collections().contains(*c) && forall|i: int|
                    0 <= i < self.collections().len() && #[trigger] self.collections()[i].id@ == id@ ==> self.collections()[i] == *c,
                None => !has_collection(self.collections(), id@),
            },
    {
        proof {
            use_type_invariant(self);
        }
        match self.position(id) {
            Some(i) => Some(&self.collections[i]),
            None => None,
        }
    }

    /// The statistics of collection `id`.
    pub fn get_collection_stats(&self, id: &str) -> (r: Option<&CollectionStats>)
        ensures
            match r {
                Some(s) => s.collection_id@ == id@ && self.stats().contains(*s) && forall|k: int|
                    0 <= k < self.stats().len() && (#[trigger] self.stats()[k]).collection_id@ == id@ ==> self.stats()[k] == *s,
                None => forall|k: int| 0 <= k < self.stats().len() ==> (#[trigger] self.stats()[k]).collection_id@ != id@,
            },
    {
        proof {
            use_type_invariant(self);
        }
        match self.stats_position(id) {
            Some(i) => Some(&self.statistics[i]),
            None => None,
        }
    }

    /// The collections a cross-collection search covers: those asked for, or
    /// else every active collection.
    pub fn target_collections(&self, requested: Option<Vec<String>>) -> (r: Vec<String>)
        ensures
            match requested {
                Some(t) => r == t,
                None => string_views(r@) == active_ids(self.collections()),
            },
    {
        match requested {
            Some(t) => t,
            None => {
                let ghost cs = self.collections();
                let mut r: Vec<String> = Vec::new();
                let mut i: usize = 0;
                while i < self.collections.len()
                    invariant
                        i <= cs.len(),
                        cs == self.collections(),
                        string_views(r@) == active_ids(cs.take(i as int)),
                    decreases cs.len() - i,
                {
                    assert(cs.take(i + 1).drop_last() == cs.take(i as int));
                    if self.collections[i].active {
                        let ghost before = r@;
                        r.push(self.collections[i].id.clone());
                        assert(string_views(r@) =~= string_views(before).push(cs[i as int].id@));
                    }
                    i = i + 1;
                }
                assert(cs.take(cs.len() as int) == cs);
                r
            },
        }
    }

    /// Refreshes the statistics of every active collection at `now`: each
    /// gets its last update set to `now`, made fresh when there were none.
    pub fn update_statistics_at(&mut self, now: u64)
        ensures
            final(self).collections() == old(self).collections(),
            final(self).settings() == old(self).settings(),
            final(self).stats() == refreshed(old(self).stats(), old(self).collections(), now),
    {
        let ghost cs = self.collections();
        let ghost s0 = self.stats();
        let mut i: usize = 0;
        while i < self.collections.len()
            invariant
                i <= cs.len(),
                cs == self.collections(),
                self.settings() == old(self).settings(),
                self.stats() == refreshed(s0, cs.take(i as int), now),
            decreases cs.len() - i,
        {
            assert(cs.take(i + 1).drop_last() == cs.take(i as int));
            assert(cs.take(i + 1).last() == cs[i as int]);
            if self.collections[i].active {
                let id = self.collections[i].id.clone();
                self.touch_stats(id, now);
            }
            i = i + 1;
        }
        assert(cs.take(cs.len() as int) == cs);
    }

    /// Sets the last update of collection `id`'s statistics to `now`, making
    /// fresh statistics when there are none.
    fn touch_stats(&mut self, id: String, now: u64)
        ensures
            final(self).collections() == old(self).collections(),
            final(self).settings() == old(self).settings(),
            final(self).stats() == touched(old(self).stats(), id, now),
    {
        proof {
            use_type_invariant(&*self);
        }
        let found = self.stats_position(id.as_str());
        let ghost pre = self.stats();
        let mut ss: Vec<CollectionStats> = Vec::new();
        std::mem::swap(&mut ss, &mut self.statistics);
        let ghost before = ss@;
        assert(before == pre);
        let ghost k2 = id;
        match found {
            Some(k) => {
                let mut st = ss.remove(k);
                st.last_updated = now;
                let ghost s1 = st;
                ss.insert(k, st);
                proof {
                    assert(ss@ =~= before.update(k as int, s1));
                    let c = choose|c: int| 0 <= c < before.len() && #[trigger] before[c].collection_id@ == k2@;
                    assert(c == k);
                    assert forall|a: int, b: int| 0 <= a < ss@.len() && 0 <= b < ss@.len() && a != b implies ss@[a].collection_id@ != ss@[b].collection_id@ by {
                        assert(ss@[a].collection_id@ == before[a].collection_id@);
                        assert(ss@[b].collection_id@ == before[b].collection_id@);
                    }
                }
            },
            None => {
                ss.push(CollectionStats { collection_id: id, document_count: 0, total_size_bytes: 0, total_searches: 0, last_updated: now });
                proof {
                    assert(ss@[before.len() as int].collection_id@ == k2@);
                    assert forall|m: int| 0 <= m < before.len() implies before[m].collection_id@ != k2@ by {
                        assert(pre[m].collection_id@ != k2@);
                    }
                    assert forall|a: int, b: int| 0 <= a < ss@.len() && 0 <= b < ss@.len() && a != b implies ss@[a].collection_id@ != ss@[b].collection_id@ by {
                        if a < before.len() {
                            assert(ss@[a] == before[a]);
                        }
                        if b < before.len() {
                            assert(ss@[b] == before[b]);
                        }
                    }
                }
            },
        }
        self.statistics = ss;
    }
}
} // verus!

verus! {

/// Counts of a search across collections.
#[derive(Debug, Clone)]
pub struct CrossCollectionSearchStats {
    pub collections_searched: Vec<String>,
    pub total_results: usize,
    /// The result count of each collection that could be searched, in the
    /// order searched.
    pub results_per_collection: Vec<(String, usize)>,
    pub total_processing_time_ms: u64,
    /// The time spent on each collection, in the order searched.
    pub processing_time_per_collection: Vec<(String, u64)>,
}

/// The total of the counts of the collections that were searched.
pub open spec fn total_found(found: Seq<Option<usize>>) -> nat
    decreases found.len(),
{
    if found.len() == 0 {
        0
    } else {
        total_found(found.drop_last()) + match found.last() {
            Some(n) => n as nat,
            None => 0nat,
        }
    }
}

/// The per-collection counts: each searched collection with its count, in order.
pub open spec fn found_pairs(targets: Seq<Seq<char>>, found: Seq<Option<usize>>) -> Seq<(Seq<char>, usize)>
    decreases found.len(),
{
    if found.len() == 0 || targets.len() < found.len() {
        Seq::empty()
    } else {
        let prev = found_pairs(targets.take(found.len() - 1), found.drop_last());
        match found.last() {
            Some(n) => prev.push((targets[found.len() - 1], n)),
            None => prev,
        }
    }
}

/// The views of a list of name-count pairs.
pub open spec fn count_pairs_view(v: Seq<(String, usize)>) -> Seq<(Seq<char>, usize)> {
    v.map_values(|p: (String, usize)| (p.0@, p.1))
}

/// The views of a list of name-time pairs.
pub open spec fn time_pairs_view(v: Seq<(String, u64)>) -> Seq<(Seq<char>, u64)> {
    v.map_values(|p: (String, u64)| (p.0@, p.1))
}

/// The statistics of a search across `targets`: `found[i]` is the number of
/// results of `targets[i]` (`None` when it has no search service) and
/// `times[i]` the milliseconds spent on it.
pub fn cross_collection_stats(targets: Vec<String>, found: &Vec<Option<usize>>, times: &Vec<u64>, total_ms: u64) -> (s: CrossCollectionSearchStats)
    requires
        found.len() == targets.len(),
        times.len() == targets.len(),
        total_found(found@) <= usize::MAX,
    ensures
        s.collections_searched@ == targets@,
        s.total_results == total_found(found@),
        count_pairs_view(s.results_per_collection@) == found_pairs(string_views(targets@), found@),
        time_pairs_view(s.processing_time_per_collection@) == string_views(targets@).zip_with(times@),
        s.total_processing_time_ms == total_ms,
{
    let ghost names = string_views(targets@);
    let mut total: usize = 0;
    let mut per: Vec<(String, usize)> = Vec::new();
    let mut spent: Vec<(String, u64)> = Vec::new();
    let mut i: usize = 0;
    while i < targets.len()
        invariant
            i <= targets.len(),
            found.len() == targets.len(),
            times.len() == targets.len(),
            names == string_views(targets@),
            total_found(found@) <= usize::MAX,
            total == total_found(found@.take(i as int)),
            count_pairs_view(per@) == found_pairs(names.take(i as int), found@.take(i as int)),
            time_pairs_view(spent@) == names.take(i as int).zip_with(times@.take(i as int)),
        decreases targets.len() - i,
    {
        proof {
            lemma_total_found_prefix(found@, i + 1);
            assert(found@.take(i + 1).drop_last() =~= found@.take(i as int));
            assert(names.take(i + 1).take(i as int) =~= names.take(i as int));
            assert(names.take(i + 1)[i as int] == targets@[i as int]@);
        }
        match found[i] {
            Some(n) => {
                total = total + n;
                let ghost before = per@;
                per.push((targets[i].clone(), n));
                assert(count_pairs_view(per@) =~= count_pairs_view(before).push((targets@[i as int]@, n)));
            },
            None => {},
        }
        let ghost before_t = spent@;
        spent.push((targets[i].clone(), times[i]));
        assert(time_pairs_view(spent@) =~= time_pairs_view(before_t).push((targets@[i as int]@, times@[i as int])));
        assert(names.take(i + 1).len() == times@.take(i + 1).len());
        assert(time_pairs_view(spent@).len() == i + 1);
        assert forall|k: int| 0 <= k < i + 1 implies #[trigger] time_pairs_view(spent@)[k] == (
            names.take(i + 1)[k],
            times@.take(i + 1)[k],
        ) by {
            if k < i {
                assert(time_pairs_view(before_t)[k] == names.take(i as int).zip_with(times@.take(i as int))[k]);
            }
        }
        assert(time_pairs_view(spent@) =~= names.take(i + 1).zip_with(times@.take(i + 1)));
        i = i + 1;
    }
    assert(found@.take(found.len() as int) =~= found@);
    assert(names.take(targets.len() as int) =~= names);
    assert(times@.take(times.len() as int) =~= times@);
    CrossCollectionSearchStats {
        collections_searched: targets,
        total_results: total,
        results_per_collection: per,
        total_processing_time_ms: total_ms,
        processing_time_per_collection: spent,
    }
}

/// The counts of a prefix add up to no more than the counts of the whole.
proof fn lemma_total_found_prefix(found: Seq<Option<usize>>, k: int)
    requires
        0 <= k <= found.len(),
    ensures
        total_found(found.take(k)) <= total_found(found),
    decreases found.len() - k,
{
    if k < found.len() {
        lemma_total_found_prefix(found, k + 1);
        assert(found.take(k + 1).drop_last() =~= found.take(k));
    } else {
        assert(found.take(k) =~= found);
    }
}


/// A collection's id keeps, in order, exactly the characters of its name
/// that are alphanumeric, hyphens or underscores (before they are put in
/// lower case and the timestamp is added): so an underscore or a hyphen in
/// the name is in the id.
pub proof fn law_id_keeps_name_characters(name: Seq<char>, timestamp: int)
    ensures
        id_chars(name) == name.filter(|c: char| unicode_alphanumeric(c) || c == '-' || c == '_'),
        collection_id_for(name, timestamp) == lowercase_of(
            name.filter(|c: char| unicode_alphanumeric(c) || c == '-' || c == '_'),
        ) + "_"@ + signed_decimal(timestamp),
        id_chars(name.push('_')) == id_chars(name).push('_'),
        id_chars(name.push('-')) == id_chars(name).push('-'),
    decreases name.len(),
{
    reveal(Seq::filter);
    if name.len() > 0 {
        law_id_keeps_name_characters(name.drop_last(), timestamp);
    }
    assert(name.push('_').drop_last() == name);
    assert(name.push('-').drop_last() == name);
}

} // verus!
