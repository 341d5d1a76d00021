//! The parts of a user-profile index configuration.

use vstd::prelude::*;

verus! {

/// Name and primary key of the index.
#[derive(Clone, Debug, PartialEq, Default)]
pub struct IndexSettings {
    pub name: String,
    pub primary_key: String,
}

/// Attributes that queries match against, most important first.
#[derive(Clone, Debug, PartialEq, Default)]
pub struct SearchableAttributes {
    pub attributes: Vec<String>,
}

/// Ranking rules, applied in order.
#[derive(Clone, Debug, PartialEq, Default)]
pub struct RankingRules {
    pub rules: Vec<String>,
}

/// Attributes that filters may name.
#[derive(Clone, Debug, PartialEq, Default)]
pub struct FilterableAttributes {
    pub attributes: Vec<String>,
}

/// Attributes that results may be sorted by.
#[derive(Clone, Debug, PartialEq, Default)]
pub struct SortableAttributes {
    pub attributes: Vec<String>,
}

} // verus!
