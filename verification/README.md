# doc_indexer

The core of a document indexing and search service, written in Verus: the
data structures, rules and decisions of the service, each function with a
contract that Verus proves.

Layout:

- `src/` — the verified library.
  - `memory/` — string interning, a bounded cache with expiry and scored
    eviction, and a pool of reusable vectors.
  - `analytics`, `batch`, `collections`, `startup`, `shutdown`, `health`,
    `production` — the service's state machines and their bookkeeping.
  - `api`, `http`, `jsonrpc`, `rpc_adapter`, `rest_adapter`, `mcp`,
    `documents`, `stdio` — request checks, routing, error answers and
    response shapes of the service's interfaces.
  - `search_enhancement`, `metadata_filter` — query expansion and analysis,
    filtering on text metadata.
  - `load_testing`, `concurrent_search`, `vector`, `embeddings`,
    `model_manager`, `monitoring` — settings, statistics and small computations.
  - `text`, `env`, `time`, `json` — text helpers, settings read from
    environment variables, and the clock and outside types as the library
    sees them.
- `tests/` — tests run against the compiled library.
- `app/` — the process: command line, JSON-RPC over standard input and
  output, the timed work (retries, timeouts, shutdown phases), and the
  floating-point computations, none of which the library holds.
