use std::time::{SystemTime, UNIX_EPOCH};

use waypoint_schemas::decimal::{format_decimal, parse_decimal};
use waypoint_schemas::helpers::meilisearch::{
    batch_documents, document_from_profile, documents_from_profiles, profile_from_document,
    profiles_from_documents, profiles_from_hits, timestamp_falls_back, UserProfileDocument,
};
use waypoint_schemas::proto::meilisearch::UserProfile;
use waypoint_schemas::text::{contains_char, contains_str};
use waypoint_schemas::timestamp::{offset_epoch, parse_updated_at, resolve_updated_at};

fn clock_now() -> u64 {
    SystemTime::now().duration_since(UNIX_EPOCH).unwrap().as_secs()
}

fn full_profile() -> UserProfile {
    UserProfile {
        id: "42".to_string(),
        fid: 42,
        display_name: Some("Alice".to_string()),
        username: Some("alice".to_string()),
        pfp_url: Some("https://example.com/a.png".to_string()),
        bio: Some("I love Farcaster!".to_string()),
        url: None,
        location: Some("".to_string()),
        twitter: Some("alice_twitter".to_string()),
        github: None,
        updated_at: 1646092800,
    }
}

fn document_with_timestamp(updated_at: &str) -> UserProfileDocument {
    let mut d = document_from_profile(&full_profile());
    d.updated_at = updated_at.to_string();
    d
}

#[test]
fn forward_writes_decimal_timestamp() {
    let d = UserProfileDocument::from(full_profile());
    assert_eq!(d.updated_at, "1646092800");
    assert_eq!(d.id, "42");
    assert_eq!(d.fid, 42);
    assert_eq!(d.display_name, Some("Alice".to_string()));
    assert_eq!(d.url, None);
    assert_eq!(d.location, Some("".to_string()));
}

#[test]
fn round_trip_keeps_every_field() {
    let p = full_profile();
    let back = UserProfile::from(UserProfileDocument::from(p.clone()));
    assert_eq!(back, p);
    let bare = UserProfile { id: "7".to_string(), fid: 7, updated_at: 0, ..Default::default() };
    assert_eq!(UserProfile::from(UserProfileDocument::from(bare.clone())), bare);
    let last = UserProfile { id: "8".to_string(), fid: u64::MAX, updated_at: u64::MAX, ..Default::default() };
    assert_eq!(profile_from_document(&document_from_profile(&last), 5), last);
}

#[test]
fn numeric_timestamp_reads_back_exactly() {
    let p = UserProfile::from(document_with_timestamp("1646092800"));
    assert_eq!(p.updated_at, 1646092800);
}

#[test]
fn rfc3339_with_colon_offset() {
    let p = UserProfile::from(document_with_timestamp("2022-03-01T00:00:00+00:00"));
    assert_eq!(p.updated_at, 1646092800);
}

#[test]
fn fractional_seconds_with_compact_offset() {
    let p = UserProfile::from(document_with_timestamp("2022-03-01T00:00:00.123+0000"));
    assert_eq!(p.updated_at, 1646092800);
}

#[test]
fn whole_seconds_with_compact_offset() {
    let p = UserProfile::from(document_with_timestamp("2022-03-01T00:00:00+0000"));
    assert_eq!(p.updated_at, 1646092800);
}

#[test]
fn microseconds_with_colon_offset() {
    let p = UserProfile::from(document_with_timestamp("2022-03-01T00:00:00.123456+00:00"));
    assert_eq!(p.updated_at, 1646092800);
}

#[test]
fn nonzero_offset_is_taken_into_account() {
    assert_eq!(parse_updated_at("2022-03-01T05:30:00+05:30"), Some(1646092800));
    assert_eq!(parse_updated_at("2022-03-01T05:30:00+0530"), Some(1646092800));
}

#[test]
fn unparsable_timestamp_falls_back_to_now() {
    let before = clock_now();
    let p = UserProfile::from(document_with_timestamp("not-a-timestamp"));
    let after = clock_now();
    assert!(p.updated_at + 5 >= before && p.updated_at <= after + 5);
    assert_eq!(p.id, "42");
    assert_eq!(p.bio, Some("I love Farcaster!".to_string()));
}

#[test]
fn fallback_uses_given_clock_reading() {
    let d = document_with_timestamp("not-a-timestamp");
    assert!(timestamp_falls_back(&d));
    assert_eq!(profile_from_document(&d, 99).updated_at, 99);
    assert!(!timestamp_falls_back(&document_with_timestamp("12")));
    assert_eq!(profile_from_document(&document_with_timestamp("12"), 99).updated_at, 12);
}

#[test]
fn zulu_timestamp_is_not_offset_qualified() {
    assert_eq!(parse_updated_at("2022-03-01T00:00:00Z"), None);
    assert_eq!(resolve_updated_at("2022-03-01T00:00:00Z", 3), 3);
    assert_eq!(offset_epoch("2022-03-01T00:00:00Z"), Some(1646092800));
}

#[test]
fn date_before_epoch_wraps() {
    assert_eq!(parse_updated_at("1969-12-31T23:59:59+00:00"), Some(u64::MAX));
}

#[test]
fn decimal_edge_cases() {
    assert_eq!(parse_decimal("0"), Some(0));
    assert_eq!(parse_decimal("+42"), Some(42));
    assert_eq!(parse_decimal("007"), Some(7));
    assert_eq!(parse_decimal("18446744073709551615"), Some(u64::MAX));
    assert_eq!(parse_decimal("18446744073709551616"), None);
    assert_eq!(parse_decimal("184467440737095516160x"), None);
    assert_eq!(parse_decimal(""), None);
    assert_eq!(parse_decimal("+"), None);
    assert_eq!(parse_decimal("-1"), None);
    assert_eq!(parse_decimal("12a"), None);
    assert_eq!(parse_decimal(" 1"), None);
    assert_eq!(resolve_updated_at("", 17), 17);
}

#[test]
fn decimal_formatting() {
    assert_eq!(format_decimal(0), "0");
    assert_eq!(format_decimal(10), "10");
    assert_eq!(format_decimal(1646092800), "1646092800");
    assert_eq!(format_decimal(u64::MAX), "18446744073709551615");
}

#[test]
fn text_search() {
    assert!(contains_char("2022-03-01T00", 'T'));
    assert!(!contains_char("", 'T'));
    assert!(contains_str("code: index_already_exists", "index_already_exists"));
    assert!(contains_str("abc", ""));
    assert!(!contains_str("index_already", "index_already_exists"));
    assert!(contains_str("ééa", "éa"));
}

#[test]
fn empty_batch_needs_no_write() {
    assert!(batch_documents(&[]).is_none());
    assert!(documents_from_profiles(&[]).is_empty());
    let docs = batch_documents(&[full_profile()]).unwrap();
    assert_eq!(docs.len(), 1);
    assert_eq!(docs[0].updated_at, "1646092800");
}

#[test]
fn two_profiles_end_to_end() {
    let alice = UserProfile {
        id: "1".to_string(),
        fid: 1,
        display_name: Some("Alice".to_string()),
        username: Some("alice".to_string()),
        bio: Some("I love Farcaster!".to_string()),
        twitter: Some("alice_twitter".to_string()),
        updated_at: 1646092800,
        ..Default::default()
    };
    let bob = UserProfile {
        id: "2".to_string(),
        fid: 2,
        display_name: Some("Bob".to_string()),
        username: Some("bob".to_string()),
        bio: Some("Web3 enthusiast".to_string()),
        github: Some("bob_github".to_string()),
        updated_at: 1646179200,
        ..Default::default()
    };
    let written = batch_documents(&[alice.clone(), bob.clone()]).unwrap();
    let stored: Vec<UserProfileDocument> = written.iter().take(10).cloned().collect();
    let read = profiles_from_hits(&stored);
    assert_eq!(read, vec![alice.clone(), bob.clone()]);
    assert_eq!(profiles_from_documents(&stored, 0), vec![alice, bob]);
}
