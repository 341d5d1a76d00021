//! The user-profile index: its schema, the document that the search store
//! holds, and the decisions around the store calls.

use vstd::prelude::*;

use crate::decimal::{decimal_text, format_decimal, lemma_decimal_round_trip};
use crate::proto::meilisearch::user_profile_schema::{
    FilterableAttributes, IndexSettings, RankingRules, SearchableAttributes, SortableAttributes,
};
use crate::proto::meilisearch::{UserProfile, UserProfileSchema};
use crate::text::{contains_str, contains_text};
use crate::timestamp::{
    now_epoch_seconds, parse_updated_at, parsed_epoch, resolve_updated_at, resolved_epoch,
};

verus! {

/// Failures of the schema and index operations.
#[derive(Clone, Debug)]
pub enum MeilisearchSchemaError {
    /// The store rejected a call or could not be reached; holds its message.
    Client(String),
    /// The schema lacks a part that applying it needs.
    Schema(String),
    /// A document could not be converted.
    Conversion(String),
}

/// The human-readable text of an error.
pub open spec fn error_text(e: MeilisearchSchemaError) -> Seq<char> {
    match e {
        MeilisearchSchemaError::Client(m) => "Meilisearch client error: "@ + m@,
        MeilisearchSchemaError::Schema(m) => "Failed to apply schema: "@ + m@,
        MeilisearchSchemaError::Conversion(m) => "Failed to convert document: "@ + m@,
    }
}

impl MeilisearchSchemaError {
    /// The human-readable text of this error.
    pub fn message(&self) -> (r: String)
        ensures
            r@ == error_text(*self),
    {
        let (prefix, detail) = match self {
            MeilisearchSchemaError::Client(m) => ("Meilisearch client error: ", m),
            MeilisearchSchemaError::Schema(m) => ("Failed to apply schema: ", m),
            MeilisearchSchemaError::Conversion(m) => ("Failed to convert document: ", m),
        };
        let mut out = String::from_str(prefix);
        out.append(detail.as_str());
        out
    }
}

/// A user profile as the search store holds it. `updated_at` is free text,
/// since the store may hand timestamps back in a form of its own.
#[derive(Clone, Debug, PartialEq)]
pub struct UserProfileDocument {
    pub id: String,
    pub fid: u64,
    pub display_name: Option<String>,
    pub username: Option<String>,
    pub pfp_url: Option<String>,
    pub bio: Option<String>,
    pub url: Option<String>,
    pub location: Option<String>,
    pub twitter: Option<String>,
    pub github: Option<String>,
    pub updated_at: String,
}

/// `d` and `p` agree on every field but `updated_at`.
pub open spec fn same_profile_fields(d: UserProfileDocument, p: UserProfile) -> bool {
    &&& d.id == p.id
    &&& d.fid == p.fid
    &&& d.display_name == p.display_name
    &&& d.username == p.username
    &&& d.pfp_url == p.pfp_url
    &&& d.bio == p.bio
    &&& d.url == p.url
    &&& d.location == p.location
    &&& d.twitter == p.twitter
    &&& d.github == p.github
}

/// `d` is the document written for `p`: the same fields, and the timestamp
/// as its decimal text.
pub open spec fn is_document_of(d: UserProfileDocument, p: UserProfile) -> bool {
    &&& same_profile_fields(d, p)
    &&& d.updated_at@ == decimal_text(p.updated_at as nat)
}

/// `p` is the profile read back from `d` at clock reading `now`: the same
/// fields, and the timestamp that the text denotes, or `now` where it
/// denotes none.
pub open spec fn is_profile_of(p: UserProfile, d: UserProfileDocument, now: u64) -> bool {
    &&& same_profile_fields(d, p)
    &&& p.updated_at == resolved_epoch(d.updated_at@, now)
}

fn clone_text(o: &Option<String>) -> (r: Option<String>)
    ensures
        r == *o,
{
    match o {
        Some(s) => Some(s.clone()),
        None => None,
    }
}

/// The document that the store is given for `p`.
pub fn document_from_profile(p: &UserProfile) -> (r: UserProfileDocument)
    ensures
        is_document_of(r, *p),
{
    UserProfileDocument {
        id: p.id.clone(),
        fid: p.fid,
        display_name: clone_text(&p.display_name),
        username: clone_text(&p.username),
        pfp_url: clone_text(&p.pfp_url),
        bio: clone_text(&p.bio),
        url: clone_text(&p.url),
        location: clone_text(&p.location),
        twitter: clone_text(&p.twitter),
        github: clone_text(&p.github),
        updated_at: format_decimal(p.updated_at),
    }
}

fn profile_with_updated_at(d: &UserProfileDocument, updated_at: u64) -> (r: UserProfile)
    ensures
        same_profile_fields(*d, r),
        r.updated_at == updated_at,
{
    UserProfile {
        id: d.id.clone(),
        fid: d.fid,
        display_name: clone_text(&d.display_name),
        username: clone_text(&d.username),
        pfp_url: clone_text(&d.pfp_url),
        bio: clone_text(&d.bio),
        url: clone_text(&d.url),
        location: clone_text(&d.location),
        twitter: clone_text(&d.twitter),
        github: clone_text(&d.github),
        updated_at,
    }
}

/// The profile read back from `d`, with `now` standing in for a timestamp
/// that the text does not denote.
pub fn profile_from_document(d: &UserProfileDocument, now: u64) -> (r: UserProfile)
    ensures
        is_profile_of(r, *d, now),
{
    profile_with_updated_at(d, resolve_updated_at(d.updated_at.as_str(), now))
}

/// Whether reading `d` back has to substitute the clock for its timestamp.
pub fn timestamp_falls_back(d: &UserProfileDocument) -> (r: bool)
    ensures
        r == (parsed_epoch(d.updated_at@) is None),
{
    parse_updated_at(d.updated_at.as_str()).is_none()
}

impl From<UserProfile> for UserProfileDocument {
    fn from(proto: UserProfile) -> (r: Self)
        ensures
            is_document_of(r, proto),
    {
        document_from_profile(&proto)
    }
}

impl vstd::std_specs::convert::FromSpecImpl<UserProfile> for UserProfileDocument {
    open spec fn obeys_from_spec() -> bool {
        false
    }

    open spec fn from_spec(v: UserProfile) -> Self {
        arbitrary()
    }
}

impl From<UserProfileDocument> for UserProfile {
    /// Reads the clock only where the timestamp text denotes no instant.
    fn from(doc: UserProfileDocument) -> (r: Self)
        ensures
            same_profile_fields(doc, r),
            match parsed_epoch(doc.updated_at@) {
                Some(v) => r.updated_at == v,
                None => true,
            },
    {
        match parse_updated_at(doc.updated_at.as_str()) {
            Some(v) => profile_with_updated_at(&doc, v),
            None => profile_with_updated_at(&doc, now_epoch_seconds() as u64),
        }
    }
}

impl vstd::std_specs::convert::FromSpecImpl<UserProfileDocument> for UserProfile {
    open spec fn obeys_from_spec() -> bool {
        false
    }

    open spec fn from_spec(v: UserProfileDocument) -> Self {
        arbitrary()
    }
}

/// The documents that one batched write hands the store, in order.
pub fn documents_from_profiles(profiles: &[UserProfile]) -> (r: Vec<UserProfileDocument>)
    ensures
        r@.len() == profiles@.len(),
        forall|i: int| 0 <= i < profiles@.len() ==> is_document_of(#[trigger] r@[i], profiles@[i]),
{
    let mut out: Vec<UserProfileDocument> = Vec::new();
    let mut i: usize = 0;
    while i < profiles.len()
        invariant
            i <= profiles@.len(),
            out@.len() == i,
            forall|k: int| 0 <= k < i ==> is_document_of(#[trigger] out@[k], profiles@[k]),
        decreases profiles@.len() - i,
    {
        out.push(document_from_profile(&profiles[i]));
        i = i + 1;
    }
    out
}

/// The documents of one batched write, or `None` where there is nothing to
/// write: an empty batch succeeds without a call to the store.
pub fn batch_documents(profiles: &[UserProfile]) -> (r: Option<Vec<UserProfileDocument>>)
    ensures
        profiles@.len() == 0 <==> r is None,
        r is Some ==> r.unwrap()@.len() == profiles@.len() && forall|i: int|
            0 <= i < profiles@.len() ==> is_document_of(#[trigger] r.unwrap()@[i], profiles@[i]),
{
    if profiles.len() == 0 {
        None
    } else {
        Some(documents_from_profiles(profiles))
    }
}

/// `ps` are the profiles read back, one by one and in order, from `docs` at
/// clock reading `now`.
pub open spec fn are_profiles_of(ps: Seq<UserProfile>, docs: Seq<UserProfileDocument>, now: u64) -> bool {
    &&& ps.len() == docs.len()
    &&& forall|i: int| 0 <= i < docs.len() ==> is_profile_of(#[trigger] ps[i], docs[i], now)
}

/// The profiles read back from search hits, in the store's order, with `now`
/// standing in for timestamps that their text does not denote.
pub fn profiles_from_documents(docs: &[UserProfileDocument], now: u64) -> (r: Vec<UserProfile>)
    ensures
        are_profiles_of(r@, docs@, now),
{
    let mut out: Vec<UserProfile> = Vec::new();
    let mut i: usize = 0;
    while i < docs.len()
        invariant
            i <= docs@.len(),
            out@.len() == i,
            forall|k: int| 0 <= k < i ==> is_profile_of(#[trigger] out@[k], docs@[k], now),
        decreases docs@.len() - i,
    {
        out.push(profile_from_document(&docs[i], now));
        i = i + 1;
    }
    out
}

/// The profiles read back from search hits, in the store's order; the clock
/// is read once and stands in for every timestamp that its text does not denote.
pub fn profiles_from_hits(docs: &[UserProfileDocument]) -> (r: Vec<UserProfile>)
    ensures
        r@.len() == docs@.len(),
        exists|now: u64| #[trigger] are_profiles_of(r@, docs@, now),
{
    let now = now_epoch_seconds() as u64;
    let r = profiles_from_documents(docs, now);
    assert(are_profiles_of(r@, docs@, now));
    r
}

/// Name of the user-profile index.
pub const USER_PROFILES_INDEX: &'static str = "user_profiles";

/// Primary key field of the user-profile index.
pub const USER_PROFILES_PRIMARY_KEY: &'static str = "id";

/// The texts that a list of strings holds.
pub open spec fn texts(v: Vec<String>) -> Seq<Seq<char>> {
    v.deep_view()
}

/// The user-profile schema: the index `user_profiles` keyed on `id`; the
/// searchable attributes, ranking rules, distinct attribute, and the
/// filterable and sortable attributes, each as listed here.
pub open spec fn is_user_profile_schema(s: UserProfileSchema) -> bool {
    &&& s.index is Some
    &&& s.index.unwrap().name@ == "user_profiles"@
    &&& s.index.unwrap().primary_key@ == "id"@
    &&& s.searchable is Some
    &&& texts(s.searchable.unwrap().attributes) == seq![
        "username"@,
        "display_name"@,
        "bio"@,
        "location"@,
        "twitter"@,
        "github"@,
        "fid"@,
    ]
    &&& s.ranking is Some
    &&& texts(s.ranking.unwrap().rules) == seq![
        "words"@,
        "typo"@,
        "proximity"@,
        "attribute"@,
        "sort"@,
        "exactness"@,
    ]
    &&& s.distinct_attribute@ == "username"@
    &&& s.filterable is Some
    &&& texts(s.filterable.unwrap().attributes) == seq!["fid"@]
    &&& s.sortable is Some
    &&& texts(s.sortable.unwrap().attributes) == seq!["fid"@, "updated_at"@]
}

fn text(s: &str) -> (r: String)
    ensures
        r@ == s@,
{
    String::from_str(s)
}

/// The predefined user-profile schema.
pub fn get_user_profile_schema() -> (r: UserProfileSchema)
    ensures
        is_user_profile_schema(r),
{
    let index = IndexSettings { name: text(USER_PROFILES_INDEX), primary_key: text(USER_PROFILES_PRIMARY_KEY) };
    let searchable = SearchableAttributes {
        attributes: vec![
            text("username"),
            text("display_name"),
            text("bio"),
            text("location"),
            text("twitter"),
            text("github"),
            text("fid"),
        ],
    };
    let ranking = RankingRules {
        rules: vec![
            text("words"),
            text("typo"),
            text("proximity"),
            text("attribute"),
            text("sort"),
            text("exactness"),
        ],
    };
    let filterable = FilterableAttributes { attributes: vec![text("fid")] };
    let sortable = SortableAttributes { attributes: vec![text("fid"), text("updated_at")] };
    let r = UserProfileSchema {
        index: Some(index),
        searchable: Some(searchable),
        ranking: Some(ranking),
        distinct_attribute: text("username"),
        filterable: Some(filterable),
        sortable: Some(sortable),
    };
    assert(texts(r.searchable.unwrap().attributes) =~= seq![
        "username"@,
        "display_name"@,
        "bio"@,
        "location"@,
        "twitter"@,
        "github"@,
        "fid"@,
    ]);
    assert(texts(r.ranking.unwrap().rules) =~= seq![
        "words"@,
        "typo"@,
        "proximity"@,
        "attribute"@,
        "sort"@,
        "exactness"@,
    ]);
    assert(texts(r.filterable.unwrap().attributes) =~= seq!["fid"@]);
    assert(texts(r.sortable.unwrap().attributes) =~= seq!["fid"@, "updated_at"@]);
    r
}

/// The user-profile schema searches at least one attribute, ranks by at
/// least one rule, keeps results distinct on one non-empty attribute, and
/// lets `fid` be both filtered and sorted on.
pub proof fn lemma_schema_shape(s: UserProfileSchema)
    requires
        is_user_profile_schema(s),
    ensures
        s.searchable.unwrap().attributes@.len() > 0,
        s.ranking.unwrap().rules@.len() > 0,
        s.distinct_attribute@.len() > 0,
        texts(s.filterable.unwrap().attributes).contains("fid"@),
        texts(s.sortable.unwrap().attributes).contains("fid"@),
{
    reveal_strlit("username");
    assert(texts(s.searchable.unwrap().attributes).len() == 7);
    assert(texts(s.ranking.unwrap().rules).len() == 6);
    assert(texts(s.filterable.unwrap().attributes)[0] == "fid"@);
    assert(texts(s.sortable.unwrap().attributes)[0] == "fid"@);
}

/// The store configuration that applying a schema pushes: one entry per
/// attribute group, absent where the schema leaves that group out.
#[derive(Clone, Debug)]
pub struct SettingsPlan {
    pub searchable_attributes: Option<Vec<String>>,
    pub ranking_rules: Option<Vec<String>>,
    pub distinct_attribute: Option<String>,
    pub filterable_attributes: Option<Vec<String>>,
    pub sortable_attributes: Option<Vec<String>>,
}

/// `plan` lists `group` where the schema has it, and nothing where it has not.
pub open spec fn plans_group(plan: Option<Vec<String>>, group: Option<Vec<String>>) -> bool {
    match group {
        Some(g) => plan is Some && texts(plan.unwrap()) == texts(g),
        None => plan is None,
    }
}

/// `plan` is the configuration that `schema` asks for.
pub open spec fn is_settings_plan_of(plan: SettingsPlan, schema: UserProfileSchema) -> bool {
    &&& plans_group(
        plan.searchable_attributes,
        match schema.searchable {
            Some(a) => Some(a.attributes),
            None => None,
        },
    )
    &&& plans_group(
        plan.ranking_rules,
        match schema.ranking {
            Some(a) => Some(a.rules),
            None => None,
        },
    )
    &&& if schema.distinct_attribute@.len() == 0 {
        plan.distinct_attribute is None
    } else {
        plan.distinct_attribute is Some && plan.distinct_attribute.unwrap()@
            == schema.distinct_attribute@
    }
    &&& plans_group(
        plan.filterable_attributes,
        match schema.filterable {
            Some(a) => Some(a.attributes),
            None => None,
        },
    )
    &&& plans_group(
        plan.sortable_attributes,
        match schema.sortable {
            Some(a) => Some(a.attributes),
            None => None,
        },
    )
}

fn copy_texts(v: &Vec<String>) -> (r: Vec<String>)
    ensures
        texts(r) == texts(*v),
{
    let mut out: Vec<String> = Vec::new();
    let mut i: usize = 0;
    while i < v.len()
        invariant
            i <= v@.len(),
            out@.len() == i,
            forall|k: int| 0 <= k < i ==> #[trigger] out@[k] == v@[k],
        decreases v@.len() - i,
    {
        out.push(v[i].clone());
        i = i + 1;
    }
    assert(texts(out) =~= texts(*v));
    out
}

fn plan_group(group: Option<&Vec<String>>) -> (r: Option<Vec<String>>)
    ensures
        plans_group(
            r,
            match group {
                Some(g) => Some(*g),
                None => None,
            },
        ),
{
    match group {
        Some(g) => Some(copy_texts(g)),
        None => None,
    }
}

/// The store configuration that applying `schema` pushes.
pub fn settings_plan(schema: &UserProfileSchema) -> (r: SettingsPlan)
    ensures
        is_settings_plan_of(r, *schema),
{
    let searchable_attributes = plan_group(
        match &schema.searchable {
            Some(a) => Some(&a.attributes),
            None => None,
        },
    );
    let ranking_rules = plan_group(
        match &schema.ranking {
            Some(a) => Some(&a.rules),
            None => None,
        },
    );
    let distinct_attribute = if schema.distinct_attribute.unicode_len() == 0 {
        None
    } else {
        Some(schema.distinct_attribute.clone())
    };
    let filterable_attributes = plan_group(
        match &schema.filterable {
            Some(a) => Some(&a.attributes),
            None => None,
        },
    );
    let sortable_attributes = plan_group(
        match &schema.sortable {
            Some(a) => Some(&a.attributes),
            None => None,
        },
    );
    SettingsPlan {
        searchable_attributes,
        ranking_rules,
        distinct_attribute,
        filterable_attributes,
        sortable_attributes,
    }
}

/// The index that applying `schema` creates, or the schema error where it
/// names none.
pub fn index_settings_of(schema: &UserProfileSchema) -> (r: Result<IndexSettings, MeilisearchSchemaError>)
    ensures
        schema.index is Some ==> r == Ok::<IndexSettings, MeilisearchSchemaError>(schema.index.unwrap()),
        schema.index is None ==> r is Err && r->Err_0 is Schema && error_text(r->Err_0)
            == "Failed to apply schema: "@ + "No index settings provided"@,
{
    match &schema.index {
        Some(ix) => Ok(IndexSettings { name: ix.name.clone(), primary_key: ix.primary_key.clone() }),
        None => Err(MeilisearchSchemaError::Schema(text("No index settings provided"))),
    }
}

/// The store's marker for an index that exists already.
pub const INDEX_ALREADY_EXISTS: &'static str = "index_already_exists";

/// What a create-index call means for applying the schema: success, also
/// where the store says that the index exists already; any other failure
/// is a client error that carries the store's message.
pub fn index_creation_outcome(failure: Option<String>) -> (r: Result<(), MeilisearchSchemaError>)
    ensures
        match failure {
            None => r is Ok,
            Some(m) => if contains_text(m@, "index_already_exists"@) {
                r is Ok
            } else {
                r == Err::<(), MeilisearchSchemaError>(MeilisearchSchemaError::Client(m))
            },
        },
{
    match failure {
        None => Ok(()),
        Some(m) => {
            if contains_str(m.as_str(), INDEX_ALREADY_EXISTS) {
                Ok(())
            } else {
                Err(MeilisearchSchemaError::Client(m))
            }
        },
    }
}

/// Applying the schema a second time, where the first created the index,
/// succeeds at the create step: the store's "exists already" answer is no
/// failure.
pub proof fn lemma_index_creation_idempotent(m: String)
    requires
        contains_text(m@, "index_already_exists"@),
    ensures
        forall|r: Result<(), MeilisearchSchemaError>|
            call_ensures(index_creation_outcome, (Some(m),), r) ==> r is Ok,
{
}

/// A profile written as a document and read back is the same profile,
/// whatever the clock reads.
pub proof fn lemma_profile_round_trip(
    p: UserProfile,
    d: UserProfileDocument,
    q: UserProfile,
    now: u64,
)
    requires
        is_document_of(d, p),
        is_profile_of(q, d, now),
    ensures
        q == p,
{
    lemma_decimal_round_trip(p.updated_at);
}

} // verus!
