//! Wire messages of the user-profile search index.

pub mod user_profile_schema;

use vstd::prelude::*;

use self::user_profile_schema::{
    FilterableAttributes, IndexSettings, RankingRules, SearchableAttributes, SortableAttributes,
};

verus! {

/// A user profile as backend services exchange it.
#[derive(Clone, Debug, PartialEq, Default)]
pub struct UserProfile {
    pub id: String,
    pub fid: u64,
    pub display_name: Option<String>,
    pub username: Option<String>,
    pub pfp_url: Option<String>,
    pub bio: Option<String>,
    pub url: Option<String>,
    pub location: Option<String>,
    pub twitter: Option<String>,
    pub github: Option<String>,
    /// Seconds since the Unix epoch.
    pub updated_at: u64,
}

/// The declarative configuration of the user-profile index.
#[derive(Clone, Debug, PartialEq, Default)]
pub struct UserProfileSchema {
    pub index: Option<IndexSettings>,
    pub searchable: Option<SearchableAttributes>,
    pub ranking: Option<RankingRules>,
    /// Empty where no distinct attribute is configured.
    pub distinct_attribute: String,
    pub filterable: Option<FilterableAttributes>,
    pub sortable: Option<SortableAttributes>,
}

} // verus!
