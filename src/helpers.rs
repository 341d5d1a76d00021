//! Helpers that connect the wire messages to the search store.

pub mod meilisearch;
