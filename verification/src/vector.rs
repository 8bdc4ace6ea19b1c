//! Settings and statistics of the vector stores.

use vstd::prelude::*;
use crate::model_manager::{home_directory, join_path, joined};
use crate::text::str_eq;

verus! {

/// Whether a stored document belongs to the collection searched: a document
/// that names its collection belongs to that one; an older document that
/// names none belongs to the default collection (`zero_latency_docs`, also
/// called `default`).
pub fn in_collection(doc_collection: Option<&str>, collection_name: &str) -> (r: bool)
    ensures
        r == match doc_collection {
            Some(c) => c@ == collection_name@,
            None => collection_name@ == "zero_latency_docs"@ || collection_name@ == "default"@,
        },
{
    match doc_collection {
        Some(c) => str_eq(c, collection_name),
        None => str_eq(collection_name, "zero_latency_docs") || str_eq(collection_name, "default"),
    }
}

/// Settings of the embedded (single-file) vector store.
#[derive(Debug, Clone)]
pub struct EmbeddedConfig {
    pub db_path: String,
    pub dimension: usize,
    pub cache_size: usize,
    pub enable_string_interning: bool,
    pub enable_smart_caching: bool,
}

/// The database file under a home directory: `.zero-latency/vectors.db`.
pub open spec fn db_path_under(home: Seq<char>) -> Seq<char> {
    joined(joined(home, ".zero-latency"@), "vectors.db"@)
}

/// The default settings with the database under `home`: 384 dimensions, a
/// cache of 10000 documents, interning and smart caching on.
pub open spec fn embedded_defaults(c: EmbeddedConfig, home: Seq<char>) -> bool {
    &&& c.db_path@ == db_path_under(home)
    &&& c.dimension == 384
    &&& c.cache_size == 10000
    &&& c.enable_string_interning
    &&& c.enable_smart_caching
}

impl EmbeddedConfig {
    /// The default settings with the database under `home`, or under the
    /// current directory when there is no home directory.
    pub fn under_home(home: Option<String>) -> (c: Self)
        ensures
            embedded_defaults(
                c,
                match home {
                    Some(h) => h@,
                    None => "."@,
                },
            ),
    {
        let base = match home {
            Some(h) => h,
            None => ".".to_owned(),
        };
        let dir = join_path(base.as_str(), ".zero-latency");
        EmbeddedConfig {
            db_path: join_path(dir.as_str(), "vectors.db"),
            dimension: 384,
            cache_size: 10000,
            enable_string_interning: true,
            enable_smart_caching: true,
        }
    }
}

impl Default for EmbeddedConfig {
    /// The default settings, with the database under the user's home
    /// directory (or the current directory when there is none).
    fn default() -> (c: Self)
        ensures
            exists|home: Seq<char>| embedded_defaults(c, home),
    {
        EmbeddedConfig::under_home(home_directory())
    }
}

/// What the embedded store holds.
#[derive(Debug, Clone)]
pub struct EmbeddedStats {
    pub document_count: usize,
    pub db_size_bytes: u64,
    pub cache_size: usize,
    pub db_path: String,
}

/// Settings of the Qdrant vector store.
#[derive(Debug, Clone)]
pub struct QdrantConfig {
    pub url: String,
    pub collection_name: String,
    pub api_key: Option<String>,
    pub timeout_seconds: u64,
}

impl Default for QdrantConfig {
    /// A local server on port 6333, the `zero_latency_docs` collection, no
    /// key, 30 seconds.
    fn default() -> (c: Self)
        ensures
            c.url@ == "http://localhost:6333"@,
            c.collection_name@ == "zero_latency_docs"@,
            c.api_key is None,
            c.timeout_seconds == 30,
    {
        QdrantConfig {
            url: "http://localhost:6333".to_owned(),
            collection_name: "zero_latency_docs".to_owned(),
            api_key: None,
            timeout_seconds: 30,
        }
    }
}

} // verus!
