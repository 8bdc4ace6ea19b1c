//! Embedding generators' settings and text handling: the OpenAI adapter's
//! validation, model dimensions, text truncation and text hashing, and the
//! local generator's settings.

use vstd::prelude::*;
use crate::jsonrpc::ZeroLatencyError;
use crate::memory::pool::VectorPoolConfig;
use crate::text::{push_str, str_eq};
use vstd::string::StringSliceAdditionalSpecFns;

verus! {

/// Settings of the OpenAI adapter.
#[derive(Debug, Clone)]
pub struct OpenAIConfig {
    pub api_key: String,
    pub model: String,
    pub base_url: Option<String>,
    pub timeout_seconds: u64,
    pub max_retries: u32,
}

impl Default for OpenAIConfig {
    fn default() -> (c: Self)
        ensures
            c.api_key@.len() == 0,
            c.model@ == "text-embedding-3-small"@,
            c.base_url is None,
            c.timeout_seconds == 30,
            c.max_retries == 3,
    {
        OpenAIConfig {
            api_key: String::new(),
            model: "text-embedding-3-small".to_owned(),
            base_url: None,
            timeout_seconds: 30,
            max_retries: 3,
        }
    }
}

/// The dimension of a model's embeddings: 3072 for
/// `text-embedding-3-large`, 1536 for every other model.
pub open spec fn model_dimension(model: Seq<char>) -> usize {
    if model == "text-embedding-3-large"@ {
        3072
    } else {
        1536
    }
}

/// The longest text, in bytes, sent for embedding as it is.
pub const MAX_CHARS: usize = 8000;

/// `text` prepared for embedding: as it is when it fits in `MAX_CHARS`
/// bytes, else its first `MAX_CHARS` bytes followed by `...`.
pub open spec fn prepared_text(text: &str, r: Seq<char>) -> bool {
    if text.spec_bytes().len() <= 8000 {
        r == text@
    } else {
        exists|head: Seq<char>|
            vstd::utf8::encode_utf8(head) == text.spec_bytes().subrange(0, 8000) && r == head + "..."@
    }
}

/// The hash of a byte string: starting from zero, each byte in turn is added
/// to 31 times the hash so far, modulo 2^64.
pub open spec fn text_hash(bytes: Seq<u8>) -> u64
    decreases bytes.len(),
{
    if bytes.len() == 0 {
        0
    } else {
        text_hash(bytes.drop_last()).wrapping_mul(31).wrapping_add(bytes.last() as u64)
    }
}

/// The hash of `text`'s UTF-8 bytes.
pub fn simple_hash(text: &str) -> (h: u64)
    ensures
        h == text_hash(text.spec_bytes()),
{
    let bytes = text.as_bytes();
    let mut hash: u64 = 0;
    let mut i: usize = 0;
    while i < bytes.len()
        invariant
            i <= bytes@.len(),
            bytes@ == text.spec_bytes(),
            hash == text_hash(bytes@.take(i as int)),
        decreases bytes.len() - i,
    {
        assert(bytes@.take(i + 1).drop_last() == bytes@.take(i as int));
        hash = hash.wrapping_mul(31).wrapping_add(bytes[i] as u64);
        i = i + 1;
    }
    assert(bytes@.take(bytes@.len() as int) == bytes@);
    hash
}

/// The OpenAI embeddings adapter.
#[derive(Debug, Clone)]
pub struct OpenAIAdapter {
    config: OpenAIConfig,
}

impl OpenAIAdapter {
    /// The settings.
    pub closed spec fn settings(&self) -> OpenAIConfig {
        self.config
    }

    /// An adapter with `config`; refused when the API key is empty.
    pub fn new(config: OpenAIConfig) -> (r: Result<Self, ZeroLatencyError>)
        ensures
            config.api_key@.len() == 0 ==> (r matches Err(ZeroLatencyError::Configuration { message })
                && message@ == "OpenAI API key is required"@),
            config.api_key@.len() > 0 ==> (r matches Ok(a) && a.settings() == config),
    {
        if config.api_key.as_str().is_empty() {
            return Err(ZeroLatencyError::Configuration { message: "OpenAI API key is required".to_owned() });
        }
        Ok(OpenAIAdapter { config })
    }

    /// The dimension of the configured model's embeddings.
    pub fn embedding_dimension(&self) -> (d: usize)
        ensures
            d == model_dimension(self.settings().model@),
    {
        let m = self.config.model.as_str();
        proof {
            reveal_strlit("text-embedding-ada-002");
            reveal_strlit("text-embedding-3-small");
            reveal_strlit("text-embedding-3-large");
            assert("text-embedding-ada-002"@[15] != "text-embedding-3-large"@[15]);
            assert("text-embedding-3-small"@[17] != "text-embedding-3-large"@[17]);
        }
        if str_eq(m, "text-embedding-ada-002") {
            1536
        } else if str_eq(m, "text-embedding-3-small") {
            1536
        } else if str_eq(m, "text-embedding-3-large") {
            3072
        } else {
            1536
        }
    }

    /// The configured model's name.
    pub fn model_name(&self) -> (r: &str)
        ensures
            r@ == self.settings().model@,
    {
        self.config.model.as_str()
    }

    /// `text` cut to fit the API's limit.
    pub fn prepare_text(&self, text: &str) -> (r: String)
        requires
            text.spec_bytes().len() <= usize::MAX,
            text.spec_bytes().len() > 8000 ==> vstd::utf8::is_char_boundary(text.spec_bytes(), 8000),
        ensures
            prepared_text(text, r@),
    {
        if text.len() > MAX_CHARS {
            let (head, _rest) = text.split_at(MAX_CHARS);
            let mut r = head.to_owned();
            push_str(&mut r, "...");
            assert(head.spec_bytes() == text.spec_bytes().subrange(0, 8000));
            assert(vstd::utf8::encode_utf8(head@) == text.spec_bytes().subrange(0, 8000) && r@ == head@ + "..."@);
            r
        } else {
            text.to_owned()
        }
    }
}

/// Settings of the local embedding generator.
#[derive(Debug, Clone, Copy)]
pub struct LocalEmbeddingConfig {
    pub dimension: usize,
    pub seed: u64,
    pub enable_vector_pooling: bool,
}

impl Default for LocalEmbeddingConfig {
    fn default() -> (c: Self)
        ensures
            c.dimension == 384,
            c.seed == 42,
            c.enable_vector_pooling,
    {
        LocalEmbeddingConfig { dimension: 384, seed: 42, enable_vector_pooling: true }
    }
}

impl LocalEmbeddingConfig {
    /// Checks the settings: the dimension must be positive. Gives the
    /// settings of the vector pool to use, if pooling is on: fifty vectors of
    /// the configured dimension, sixteen elements of tolerance.
    pub fn validate(&self) -> (r: Result<Option<VectorPoolConfig>, ZeroLatencyError>)
        ensures
            self.dimension == 0 ==> (r matches Err(ZeroLatencyError::Configuration { message })
                && message@ == "Embedding dimension must be greater than 0"@),
            self.dimension > 0 ==> (r matches Ok(p) && if self.enable_vector_pooling {
                p matches Some(c) && c.max_pool_size == 50 && c.dimension == self.dimension && c.dimension_tolerance == 16
            } else {
                p is None
            }),
    {
        if self.dimension == 0 {
            return Err(ZeroLatencyError::Configuration { message: "Embedding dimension must be greater than 0".to_owned() });
        }
        if self.enable_vector_pooling {
            Ok(Some(VectorPoolConfig { max_pool_size: 50, dimension: self.dimension, dimension_tolerance: 16 }))
        } else {
            Ok(None)
        }
    }
}

/// Texts to embed must not be empty.
pub fn check_text(text: &str) -> (r: Result<(), ZeroLatencyError>)
    ensures
        text@.len() == 0 ==> (r matches Err(ZeroLatencyError::Validation { field, message })
            && field@ == "text"@ && message@ == "Text cannot be empty"@),
        text@.len() > 0 ==> r is Ok,
{
    if text.is_empty() {
        Err(ZeroLatencyError::Validation { field: "text".to_owned(), message: "Text cannot be empty".to_owned() })
    } else {
        Ok(())
    }
}

} // verus!
