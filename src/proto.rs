//! Wire-format messages.

pub mod meilisearch;
