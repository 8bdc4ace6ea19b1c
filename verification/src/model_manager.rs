//! Where embedding models are cached, which model the indexer uses, and the
//! files each cached model consists of. Paths are handled as text, with `/`
//! between components.

use vstd::prelude::*;
use crate::text::{push_str, seq_ends_with, seq_starts_with, str_ends_with, str_starts_with};

verus! {

/// An embedding model and where to get it.
#[derive(Debug, Clone)]
pub struct ModelInfo {
    pub name: String,
    pub onnx_url: String,
    pub tokenizer_url: String,
    pub config_url: String,
    pub expected_dimensions: usize,
    pub model_size_mb: usize,
}

/// The files of a cached model.
#[derive(Debug, Clone)]
pub struct ModelPaths {
    pub onnx_path: String,
    pub tokenizer_path: String,
    pub config_path: String,
}

/// `part` appended to the path `base` as a new component: an absolute `part`
/// replaces `base`, and a separator is put between them unless `base` is
/// empty or already ends with one.
pub open spec fn joined(base: Seq<char>, part: Seq<char>) -> Seq<char> {
    if seq_starts_with(part, "/"@) || base.len() == 0 {
        part
    } else if seq_ends_with(base, "/"@) {
        base + part
    } else {
        base + "/"@ + part
    }
}

/// `part` appended to the path `base` as a new component.
pub fn join_path(base: &str, part: &str) -> (r: String)
    ensures
        r@ == joined(base@, part@),
{
    if str_starts_with(part, "/") || base.is_empty() {
        part.to_owned()
    } else if str_ends_with(base, "/") {
        let mut r = base.to_owned();
        push_str(&mut r, part);
        r
    } else {
        let mut r = base.to_owned();
        push_str(&mut r, "/");
        push_str(&mut r, part);
        r
    }
}

/// `dirs::home_dir`: the user's home directory, when one can be found, as
/// text. Which directory that is depends on the machine and is left unsaid.
#[verifier::external_body]
pub(crate) fn home_directory() -> Option<String> {
    dirs::home_dir().map(|p| p.to_string_lossy().into_owned())
}

/// The model cache under a home directory: `.cache/zero-latency/models`.
pub open spec fn cache_dir_under(home: Seq<char>) -> Seq<char> {
    joined(joined(joined(home, ".cache"@), "zero-latency"@), "models"@)
}

/// Finds and downloads embedding models into a cache directory.
#[derive(Debug, Clone)]
pub struct ModelManager {
    cache_dir: String,
}

impl ModelManager {
    /// The cache directory.
    pub closed spec fn cache(&self) -> Seq<char> {
        self.cache_dir@
    }

    /// A manager caching under the home directory `home`.
    pub fn with_home(home: &str) -> (m: Self)
        ensures
            m.cache() == cache_dir_under(home@),
    {
        let a = join_path(home, ".cache");
        let b = join_path(a.as_str(), "zero-latency");
        let c = join_path(b.as_str(), "models");
        ModelManager { cache_dir: c }
    }

    /// A manager caching under the user's home directory; refused when there
    /// is no home directory.
    pub fn new() -> (r: Result<Self, String>)
        ensures
            match r {
                Ok(m) => exists|home: Seq<char>| m.cache() == cache_dir_under(home),
                Err(e) => e@ == "Could not find home directory"@,
            },
    {
        match home_directory() {
            Some(home) => Ok(ModelManager::with_home(home.as_str())),
            None => Err("Could not find home directory".to_owned()),
        }
    }

    /// The cache directory, as text.
    pub fn cache_dir(&self) -> (r: &str)
        ensures
            r@ == self.cache(),
    {
        self.cache_dir.as_str()
    }

    /// The gte-small model: 384 dimensions, about 120 MB, from Hugging Face.
    pub fn get_gte_small_info() -> (m: ModelInfo)
        ensures
            m.name@ == "gte-small"@,
            m.onnx_url@ == "https://huggingface.co/thenlper/gte-small/resolve/main/onnx/model.onnx"@,
            m.tokenizer_url@ == "https://huggingface.co/thenlper/gte-small/resolve/main/tokenizer.json"@,
            m.config_url@ == "https://huggingface.co/thenlper/gte-small/resolve/main/config.json"@,
            m.expected_dimensions == 384,
            m.model_size_mb == 120,
    {
        ModelInfo {
            name: "gte-small".to_owned(),
            onnx_url: "https://huggingface.co/thenlper/gte-small/resolve/main/onnx/model.onnx".to_owned(),
            tokenizer_url: "https://huggingface.co/thenlper/gte-small/resolve/main/tokenizer.json".to_owned(),
            config_url: "https://huggingface.co/thenlper/gte-small/resolve/main/config.json".to_owned(),
            expected_dimensions: 384,
            model_size_mb: 120,
        }
    }

    /// The model's directory in the cache.
    pub fn model_dir(&self, model: &ModelInfo) -> (r: String)
        ensures
            r@ == joined(self.cache(), model.name@),
    {
        join_path(self.cache_dir.as_str(), model.name.as_str())
    }

    /// The files of the model in the cache: `model.onnx`, `tokenizer.json`
    /// and `config.json` in its directory.
    pub fn get_model_paths(&self, model: &ModelInfo) -> (p: ModelPaths)
        ensures
            p.onnx_path@ == joined(joined(self.cache(), model.name@), "model.onnx"@),
            p.tokenizer_path@ == joined(joined(self.cache(), model.name@), "tokenizer.json"@),
            p.config_path@ == joined(joined(self.cache(), model.name@), "config.json"@),
    {
        let dir = self.model_dir(model);
        ModelPaths {
            onnx_path: join_path(dir.as_str(), "model.onnx"),
            tokenizer_path: join_path(dir.as_str(), "tokenizer.json"),
            config_path: join_path(dir.as_str(), "config.json"),
        }
    }

    /// Whether a downloaded ONNX file of `size_bytes` bytes has a plausible
    /// size: between 50 and 200 whole megabytes.
    pub fn onnx_size_plausible(size_bytes: u64) -> (r: bool)
        ensures
            r == (50 <= size_bytes / 1048576u64 <= 200),
    {
        let mb = size_bytes / (1024 * 1024);
        !(mb < 50 || mb > 200)
    }
}

} // verus!
