//! Tests for the request builder: parameters, field resolution, endpoint
//! gating, URL and query-string rendering.

use wp_mini::field::PartStubField;
use wp_mini::field::StoryField;
use wp_mini::field::UserStubField;
use wp_mini::HttpMethod;
use wp_mini::WattpadError;
use wp_mini::WattpadRequestBuilder;

#[test]
fn param_present_and_absent() {
    let b = WattpadRequestBuilder::new(HttpMethod::Get, "/apiv2/")
        .param("m", Some("storytext".to_string()))
        .param("skipped", None)
        .maybe_param("id", Some("5".to_string()))
        .maybe_param("also_skipped", None::<String>);
    assert_eq!(b.query_string(), "m=storytext&id=5");
    assert_eq!(b.params.len(), 2);
}

#[test]
fn url_prepends_host() {
    let b = WattpadRequestBuilder::new(HttpMethod::Get, "/api/v3/stories/123");
    assert_eq!(b.url(), "https://www.wattpad.com/api/v3/stories/123");
    assert_eq!(b.query_string(), "");
}

#[test]
fn fields_uses_callers_list() {
    let sel = vec![StoryField::Title, StoryField::VoteCount];
    let b = WattpadRequestBuilder::new(HttpMethod::Get, "/x")
        .fields(Some(&sel), false)
        .unwrap();
    assert_eq!(b.query_string(), "fields=title,voteCount");
}

#[test]
fn fields_none_resolves_to_default() {
    let b = WattpadRequestBuilder::new(HttpMethod::Get, "/x")
        .fields(None::<&Vec<StoryField>>, false)
        .unwrap();
    let expected = wp_mini::field::join_serialized(&<StoryField as wp_mini::field::DefaultableFields>::default_fields());
    assert_eq!(b.params[0].0, "fields");
    assert_eq!(b.params[0].1, expected);
}

#[test]
fn fields_empty_list_resolves_to_default() {
    let empty: Vec<StoryField> = vec![];
    let b = WattpadRequestBuilder::new(HttpMethod::Get, "/x")
        .fields(Some(&empty), false)
        .unwrap();
    let with_none = WattpadRequestBuilder::new(HttpMethod::Get, "/x")
        .fields(None::<&Vec<StoryField>>, false)
        .unwrap();
    assert_eq!(b.params, with_none.params);
}

#[test]
fn fields_gated_selection_fails_while_unauthenticated() {
    let sel = vec![PartStubField::Id, PartStubField::Voted];
    let r = WattpadRequestBuilder::new(HttpMethod::Get, "/x").fields(Some(&sel), false);
    match r {
        Err(WattpadError::AuthenticationRequired { field, .. }) => assert_eq!(field, "voted"),
        other => panic!("expected an authentication error, got {:?}", other),
    }
}

#[test]
fn fields_gated_selection_passes_while_authenticated() {
    let sel = vec![PartStubField::Id, PartStubField::Voted];
    let b = WattpadRequestBuilder::new(HttpMethod::Get, "/x")
        .fields(Some(&sel), true)
        .unwrap();
    assert_eq!(b.query_string(), "fields=id,voted");
}

#[test]
fn fields_serializes_composites() {
    let sel = vec![
        StoryField::Title,
        StoryField::User(vec![UserStubField::Username, UserStubField::Avatar]),
    ];
    let b = WattpadRequestBuilder::new(HttpMethod::Get, "/x")
        .fields(Some(&sel), false)
        .unwrap();
    assert_eq!(b.query_string(), "fields=title,user(name,avatar)");
}

#[test]
fn endpoint_auth_checked_against_state() {
    let b = WattpadRequestBuilder::new(HttpMethod::Get, "/private").requires_auth();
    assert!(b.check_endpoint_auth(true).is_ok());
    match b.check_endpoint_auth(false) {
        Err(WattpadError::AuthenticationRequired { field, context }) => {
            assert_eq!(field, "Endpoint");
            assert_eq!(context, "The endpoint at '/private' requires authentication.");
        },
        other => panic!("expected an endpoint authentication error, got {:?}", other),
    }
}

#[test]
fn endpoint_without_requirement_needs_no_auth() {
    let b = WattpadRequestBuilder::new(HttpMethod::Get, "/public");
    assert!(b.check_endpoint_auth(false).is_ok());
    assert!(b.check_endpoint_auth(true).is_ok());
}

#[test]
fn decimal_rendering() {
    assert_eq!(wp_mini::u64_to_dec(0), "0");
    assert_eq!(wp_mini::u64_to_dec(7), "7");
    assert_eq!(wp_mini::u64_to_dec(10), "10");
    assert_eq!(wp_mini::u64_to_dec(123456789), "123456789");
    assert_eq!(wp_mini::u64_to_dec(u64::MAX), "18446744073709551615");
}
