//! Tests for the response resolver and the fixed error-code table.

use wp_mini::resolver::resolve;
use wp_mini::ApiErrorResponse;
use wp_mini::DecodeOutcome;
use wp_mini::RawResponse;
use wp_mini::WattpadError;

fn envelope(code: i64) -> ApiErrorResponse {
    ApiErrorResponse {
        code,
        error_type: "SomeError".to_string(),
        message: "something happened".to_string(),
    }
}

#[test]
fn code_1014_is_user_not_found() {
    let r = resolve::<u32>(RawResponse::Failure(DecodeOutcome::Decoded(envelope(1014))));
    assert!(matches!(r, Err(WattpadError::UserNotFound)));
}

#[test]
fn code_1017_is_story_not_found() {
    let r = resolve::<u32>(RawResponse::Failure(DecodeOutcome::Decoded(envelope(1017))));
    assert!(matches!(r, Err(WattpadError::StoryNotFound)));
}

#[test]
fn code_1018_is_permission_denied() {
    let r = resolve::<u32>(RawResponse::Failure(DecodeOutcome::Decoded(envelope(1018))));
    assert!(matches!(r, Err(WattpadError::PermissionDeniedNotLoggedIn)));
}

#[test]
fn code_1154_is_access_denied() {
    let r = resolve::<u32>(RawResponse::Failure(DecodeOutcome::Decoded(envelope(1154))));
    assert!(matches!(r, Err(WattpadError::AccessDenied)));
}

#[test]
fn unmapped_code_is_carried_verbatim() {
    let env = ApiErrorResponse {
        code: 9999,
        error_type: "UnknownError".to_string(),
        message: "original message".to_string(),
    };
    match resolve::<u32>(RawResponse::Failure(DecodeOutcome::Decoded(env))) {
        Err(WattpadError::ApiError { code, error_type, message }) => {
            assert_eq!(code, 9999);
            assert_eq!(error_type, "UnknownError");
            assert_eq!(message, "original message");
        },
        other => panic!("expected the generic API error, got {:?}", other),
    }
}

#[test]
fn decoded_success_is_returned() {
    let r = resolve::<u32>(RawResponse::Success(DecodeOutcome::Decoded(17)));
    assert_eq!(r.unwrap(), 17);
}

#[test]
fn malformed_success_body_is_a_parse_error() {
    let r = resolve::<u32>(RawResponse::Success(DecodeOutcome::Malformed(
        "unexpected end of input".to_string(),
    )));
    match r {
        Err(WattpadError::ParseError(m)) => assert_eq!(m, "unexpected end of input"),
        other => panic!("expected a parse error, got {:?}", other),
    }
}

#[test]
fn malformed_error_envelope_is_a_parse_error() {
    let r = resolve::<u32>(RawResponse::Failure(DecodeOutcome::Malformed(
        "not an envelope".to_string(),
    )));
    match r {
        Err(WattpadError::ParseError(m)) => assert_eq!(m, "not an envelope"),
        other => panic!("expected a parse error, got {:?}", other),
    }
}
