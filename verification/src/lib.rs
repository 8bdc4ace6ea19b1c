//! Document indexing service core: string interning, caching, vector pooling,
//! query expansion, configuration, request routing and lifecycle state machines.

pub mod analytics;
pub mod api;
pub mod batch;
pub mod collections;
pub mod concurrent_search;
pub mod documents;
pub mod embeddings;
pub mod env;
pub mod health;
pub mod http;
pub mod json;
pub mod jsonrpc;
pub mod jsonrpc_types;
pub mod load_testing;
pub mod mcp;
pub mod memory;
pub mod metadata_filter;
pub mod model_manager;
pub mod monitoring;
pub mod production;
pub mod rest_adapter;
pub mod rpc_adapter;
pub mod search_enhancement;
pub mod shutdown;
pub mod startup;
pub mod stdio;
pub mod text;
pub mod time;
pub mod vector;
