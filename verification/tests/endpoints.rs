//! End-to-end tests of request construction: path templates, field
//! selections, gating, and the upgrade requests of stubs and references.

use wp_mini::endpoints::story::part_content_json_request;
use wp_mini::endpoints::story::part_content_raw_request;
use wp_mini::endpoints::story::part_info_request;
use wp_mini::endpoints::story::story_content_zip_request;
use wp_mini::endpoints::story::story_info_request;
use wp_mini::endpoints::user::user_info_request;
use wp_mini::field::PartStubField;
use wp_mini::field::StoryField;
use wp_mini::model::PartReference;
use wp_mini::model::PartStub;
use wp_mini::model::UserStub;
use wp_mini::HttpMethod;
use wp_mini::WattpadError;
use wp_mini::WattpadRequestBuilder;

#[test]
fn story_request_with_ungated_fields_succeeds_unauthenticated() {
    let sel = vec![StoryField::Title, StoryField::VoteCount];
    let b = story_info_request(123, Some(&sel), false).unwrap();
    assert_eq!(b.url(), "https://www.wattpad.com/api/v3/stories/123");
    assert_eq!(b.query_string(), "fields=title,voteCount");
    assert!(matches!(b.method, HttpMethod::Get));
    assert!(!b.auth_required);
}

#[test]
fn gated_part_stub_selection_fails_locally_before_any_request_exists() {
    // the builder construction itself fails: there is no request value to
    // issue, so no network call can have happened
    let sel = vec![PartStubField::Id, PartStubField::Voted, PartStubField::Title];
    let r = WattpadRequestBuilder::new(HttpMethod::Get, "/api/v3/story_parts/1")
        .fields(Some(&sel), false);
    match r {
        Err(WattpadError::AuthenticationRequired { field, context }) => {
            assert_eq!(field, "voted");
            assert_eq!(context, "The field 'voted' requires authentication.");
        },
        other => panic!("expected an authentication error, got {:?}", other),
    }
}

#[test]
fn story_request_default_fields() {
    let b = story_info_request(42, None, false).unwrap();
    assert_eq!(b.url(), "https://www.wattpad.com/api/v3/stories/42");
    let expected = wp_mini::field::join_serialized(
        &<StoryField as wp_mini::field::DefaultableFields>::default_fields(),
    );
    assert_eq!(b.params.len(), 1);
    assert_eq!(b.params[0].0, "fields");
    assert_eq!(b.params[0].1, expected);
}

#[test]
fn part_request_paths_and_defaults() {
    let b = part_info_request(87654321, None, false).unwrap();
    assert_eq!(b.url(), "https://www.wattpad.com/api/v3/story_parts/87654321");
    assert_eq!(b.query_string(), "fields=id,title,url");
}

#[test]
fn user_request_path() {
    let sel = vec![wp_mini::field::UserField::Username, wp_mini::field::UserField::NumFollowers];
    let b = user_info_request("testuser", Some(&sel), false).unwrap();
    assert_eq!(b.url(), "https://www.wattpad.com/api/v3/users/testuser");
    assert_eq!(b.query_string(), "fields=username,numFollowers");
}

#[test]
fn content_requests_carry_mode_and_output() {
    let raw = part_content_raw_request(5);
    assert_eq!(raw.url(), "https://www.wattpad.com/apiv2/");
    assert_eq!(raw.query_string(), "m=storytext&id=5");

    let json = part_content_json_request(5);
    assert_eq!(json.query_string(), "m=storytext&id=5&output=json");

    let zip = story_content_zip_request(9);
    assert_eq!(zip.query_string(), "m=storytext&group_id=9&output=zip");
}

#[test]
fn part_reference_upgrade_uses_its_id() {
    let r = PartReference { id: Some(12345), create_date: None };
    let b = r.full_part_request(false).unwrap();
    assert_eq!(b.url(), "https://www.wattpad.com/api/v3/story_parts/12345");
    assert_eq!(b.query_string(), "fields=id,title,url");
}

#[test]
fn part_reference_without_id_is_refused() {
    let r = PartReference { id: None, create_date: None };
    match r.full_part_request(false) {
        Err(WattpadError::MissingRequiredField { field, context }) => {
            assert_eq!(field, "id");
            assert_eq!(context, "Cannot fetch full part without an id.");
        },
        other => panic!("expected a missing-field error, got {:?}", other),
    }
}

#[test]
fn part_stub_upgrade_uses_its_id() {
    let s = PartStub {
        id: Some(777),
        title: Some("Chapter 1".to_string()),
        url: None,
        text_url: None,
        rating: None,
        draft: None,
        modify_date: None,
        create_date: None,
        has_banned_images: None,
        length: None,
        video_id: None,
        photo_url: None,
        comment_count: None,
        vote_count: None,
        read_count: None,
        voted: None,
        deleted: None,
    };
    let b = s.full_part_request(true).unwrap();
    assert_eq!(b.url(), "https://www.wattpad.com/api/v3/story_parts/777");
}

#[test]
fn user_stub_upgrade_uses_its_username() {
    let s = UserStub {
        username: Some("writer".to_string()),
        avatar: None,
        fullname: None,
        verified: None,
    };
    let b = s.full_profile_request(false).unwrap();
    assert_eq!(b.url(), "https://www.wattpad.com/api/v3/users/writer");
}

#[test]
fn user_stub_without_username_is_refused() {
    let s = UserStub { username: None, avatar: None, fullname: None, verified: None };
    match s.full_profile_request(false) {
        Err(WattpadError::MissingRequiredField { field, context }) => {
            assert_eq!(field, "username");
            assert_eq!(context, "Cannot fetch full profile without a username.");
        },
        other => panic!("expected a missing-field error, got {:?}", other),
    }
}
