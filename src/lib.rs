//! Aggregation of the previous day's most popular articles from a paginated
//! content source: day filtering, stable top-N ranking, fail-open hydration,
//! and a time-to-live cache that each refresh replaces whole; plus the
//! page and panel navigation of the terminal reader that displays them.
pub mod model;
pub mod ranker;
pub mod clock;
pub mod listing;
pub mod hydrate;
pub mod cache;
pub mod refresh;
pub mod navigation;
