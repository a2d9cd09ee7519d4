//! Trending topics: request spacing per source and the reading of the
//! sources' responses.
pub mod rate_limiter;
pub mod llm_search;
pub mod sources;
pub mod cache;
