# golem-websearch

A provider-neutral web search library for the `golem:web-search` interface,
with clients for Google Custom Search, Bing Web Search, Brave Search, Serper
and Tavily. The library is written in Verus: every function in `src/` carries
a contract that the verifier proves.

## Layout

- `src/types.rs`: parameters, results, metadata and errors, each with its
  mathematical value (`@`).
- `src/numbers.rs`, `src/text.rs`, `src/request.rs`: decimal text, blank
  queries, query parameters and request URLs.
- `src/error.rs`: error constructors and the mapping of HTTP status codes.
- `src/session.rs`: pagination state and the session that drives a provider.
- `src/google.rs`, `src/bing.rs`, `src/brave.rs`, `src/serper.rs`,
  `src/tavily.rs`: per provider, the request that is sent, the parameters
  that are refused, and how a response becomes results and metadata.
- `src/logging.rs`: the one-time choice of the log level.
- `src/laws.rs`: properties that relate several functions.
- `app/`: what runs around the library: environment variables, HTTP through
  `reqwest`, JSON decoding through `serde`, WASI logging, and the
  floating-point steps (seconds to milliseconds, rank scores).
- `tests/`: tests of the library on concrete values.

Relevance scores and search times are floating-point numbers, which the
verified code does not compute on; results and metadata are generic over the
type that holds them, and `app/` uses `f64`.
