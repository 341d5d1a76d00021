use waypoint_schemas::helpers::meilisearch::{
    get_user_profile_schema, index_creation_outcome, index_settings_of, settings_plan,
    MeilisearchSchemaError,
};
use waypoint_schemas::proto::meilisearch::user_profile_schema::SortableAttributes;
use waypoint_schemas::proto::meilisearch::UserProfileSchema;

fn strings(items: &[&str]) -> Vec<String> {
    items.iter().map(|s| s.to_string()).collect()
}

#[test]
fn schema_has_expected_shape() {
    let s = get_user_profile_schema();
    let index = s.index.clone().unwrap();
    assert_eq!(index.name, "user_profiles");
    assert_eq!(index.primary_key, "id");
    let searchable = s.searchable.clone().unwrap().attributes;
    assert_eq!(
        searchable,
        strings(&["username", "display_name", "bio", "location", "twitter", "github", "fid"])
    );
    let rules = s.ranking.clone().unwrap().rules;
    assert_eq!(rules, strings(&["words", "typo", "proximity", "attribute", "sort", "exactness"]));
    assert_eq!(s.distinct_attribute, "username");
    assert_eq!(s.filterable.clone().unwrap().attributes, strings(&["fid"]));
    assert_eq!(s.sortable.clone().unwrap().attributes, strings(&["fid", "updated_at"]));
    assert!(!searchable.is_empty());
    assert!(!rules.is_empty());
}

#[test]
fn plan_of_full_schema_lists_every_group() {
    let plan = settings_plan(&get_user_profile_schema());
    assert_eq!(plan.searchable_attributes.unwrap().len(), 7);
    assert_eq!(plan.ranking_rules.unwrap()[4], "sort");
    assert_eq!(plan.distinct_attribute, Some("username".to_string()));
    assert_eq!(plan.filterable_attributes, Some(strings(&["fid"])));
    assert_eq!(plan.sortable_attributes, Some(strings(&["fid", "updated_at"])));
}

#[test]
fn plan_omits_absent_groups() {
    let schema = UserProfileSchema {
        sortable: Some(SortableAttributes { attributes: strings(&["fid"]) }),
        ..Default::default()
    };
    let plan = settings_plan(&schema);
    assert!(plan.searchable_attributes.is_none());
    assert!(plan.ranking_rules.is_none());
    assert!(plan.distinct_attribute.is_none());
    assert!(plan.filterable_attributes.is_none());
    assert_eq!(plan.sortable_attributes, Some(strings(&["fid"])));
}

#[test]
fn schema_without_index_is_rejected() {
    match index_settings_of(&UserProfileSchema::default()) {
        Err(e @ MeilisearchSchemaError::Schema(_)) => {
            assert_eq!(e.message(), "Failed to apply schema: No index settings provided");
        },
        other => panic!("unexpected {:?}", other),
    }
    let ix = index_settings_of(&get_user_profile_schema()).unwrap();
    assert_eq!(ix.name, "user_profiles");
    assert_eq!(ix.primary_key, "id");
}

#[test]
fn existing_index_counts_as_created() {
    assert!(index_creation_outcome(None).is_ok());
    let exists = "Index `user_profiles` already exists. (index_already_exists)".to_string();
    assert!(index_creation_outcome(Some(exists.clone())).is_ok());
    assert!(index_creation_outcome(Some(exists)).is_ok());
}

#[test]
fn other_creation_failure_is_client_error() {
    match index_creation_outcome(Some("connection refused".to_string())) {
        Err(MeilisearchSchemaError::Client(m)) => assert_eq!(m, "connection refused"),
        other => panic!("unexpected {:?}", other),
    }
}

#[test]
fn error_messages() {
    assert_eq!(
        MeilisearchSchemaError::Client("down".to_string()).message(),
        "Meilisearch client error: down"
    );
    assert_eq!(
        MeilisearchSchemaError::Conversion("bad".to_string()).message(),
        "Failed to convert document: bad"
    );
}
