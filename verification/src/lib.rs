//! A provider-neutral web search library: the request building, parameter
//! validation, response conversion, error mapping and pagination state of the
//! `golem:web-search` interface for Google, Bing, Brave, Serper and Tavily.
//!
//! HTTP, environment access and JSON decoding are done by the caller; every
//! decision taken on their inputs and outputs is made and proved here.

pub mod numbers;
pub mod types;
pub mod text;
pub mod error;
pub mod session;
pub mod request;
pub mod google;
pub mod bing;
pub mod brave;
pub mod serper;
pub mod tavily;
pub mod logging;
pub mod laws;
pub mod result_laws;
pub mod request_laws;
