//! The error taxonomy of the library, and the fixed remapping of upstream
//! numeric error codes to specific variants.

use vstd::prelude::*;

verus! {

/// The primary error type for all operations in the crate.
///
/// Transport failures and structural decode failures carry the collaborator's
/// message as a plain string; the remaining variants are either local
/// pre-flight failures or remote API errors.
#[derive(Debug)]
pub enum WattpadError {
    /// An error occurred during a network request (e.g., connection timeout, DNS failure).
    RequestError(String),
    /// An error occurred while parsing the JSON response from the API.
    ParseError(String),
    /// An authentication attempt failed: the login response carried no session cookie.
    AuthenticationFailed,
    /// A requested field or endpoint requires authentication, but the client is not logged in.
    AuthenticationRequired {
        /// The wire name of the field, or "Endpoint", that requires authentication.
        field: String,
        /// A human-readable reason.
        context: String,
    },
    /// A required field was missing from an API response value.
    MissingRequiredField {
        /// The name of the field that was expected.
        field: String,
        /// Where the field was expected.
        context: String,
    },
    /// API error code 1014: the requested user was not found.
    UserNotFound,
    /// API error code 1017: the requested story was not found.
    StoryNotFound,
    /// API error code 1018: permission denied because the user is not logged in.
    PermissionDeniedNotLoggedIn,
    /// API error code 1154: access to the resource was denied.
    AccessDenied,
    /// Any other error returned by the API, carried verbatim.
    ApiError {
        /// The numerical error code from the API.
        code: i64,
        /// The string error type from the API.
        error_type: String,
        /// The descriptive error message from the API.
        message: String,
    },
}

/// The generic error envelope `{code, error, message}` that a failed response
/// body decodes to. The decoding itself is the JSON collaborator's concern;
/// this struct holds the decoded plain values.
#[derive(Debug)]
pub struct ApiErrorResponse {
    /// The numerical error code.
    pub code: i64,
    /// The string error type (the envelope's "error" member).
    pub error_type: String,
    /// The descriptive error message.
    pub message: String,
}

/// The fixed code-to-variant table: 1014, 1017, 1018 and 1154 map to specific
/// variants; every other code maps to the generic `ApiError`, carrying the
/// envelope's contents verbatim.
pub open spec fn spec_error_of_envelope(res: ApiErrorResponse) -> WattpadError {
    if res.code == 1014 {
        WattpadError::UserNotFound
    } else if res.code == 1017 {
        WattpadError::StoryNotFound
    } else if res.code == 1018 {
        WattpadError::PermissionDeniedNotLoggedIn
    } else if res.code == 1154 {
        WattpadError::AccessDenied
    } else {
        WattpadError::ApiError {
            code: res.code,
            error_type: res.error_type,
            message: res.message,
        }
    }
}

impl From<ApiErrorResponse> for WattpadError {
    /// Remaps the raw envelope through the fixed code table.
    fn from(res: ApiErrorResponse) -> (r: Self) {
        match res.code {
            1014 => WattpadError::UserNotFound,
            1017 => WattpadError::StoryNotFound,
            1018 => WattpadError::PermissionDeniedNotLoggedIn,
            1154 => WattpadError::AccessDenied,
            _ => WattpadError::ApiError {
                code: res.code,
                error_type: res.error_type,
                message: res.message,
            },
        }
    }
}

impl vstd::std_specs::convert::FromSpecImpl<ApiErrorResponse> for WattpadError {
    open spec fn obeys_from_spec() -> bool {
        true
    }

    open spec fn from_spec(res: ApiErrorResponse) -> Self {
        spec_error_of_envelope(res)
    }
}

} // verus!
