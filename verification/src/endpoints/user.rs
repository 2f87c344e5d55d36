//! Requests for user-related endpoints.

use vstd::prelude::*;

use crate::endpoints::lemma_get_request;
use crate::endpoints::lemma_get_request_default;
use crate::endpoints::spec_get_request;
use crate::endpoints::spec_get_request_default;
use crate::error::WattpadError;
use crate::field::UserField;
use crate::request::HttpMethod;
use crate::request::WattpadRequestBuilder;

verus! {

/// The path of the user-info endpoint for `username`.
pub open spec fn user_info_path(username: Seq<char>) -> Seq<char> {
    "/api/v3/users/"@ + username
}

/// Builds the GET request for public information about a user. The field
/// selection falls back to the user default when absent or empty; a
/// selection with an auth-required entry is refused here, before any request
/// exists to issue.
pub fn user_info_request(
    username: &str,
    fields: Option<&Vec<UserField>>,
    is_authenticated: bool,
) -> (r: Result<WattpadRequestBuilder, WattpadError>)
    ensures
        match fields {
            Some(f) => if f@.len() > 0 {
                spec_get_request(user_info_path(username@), f@, is_authenticated, r)
            } else {
                spec_get_request_default::<UserField>(
                    user_info_path(username@),
                    is_authenticated,
                    r,
                )
            },
            None => spec_get_request_default::<UserField>(
                user_info_path(username@),
                is_authenticated,
                r,
            ),
        },
{
    let mut path = "/api/v3/users/".to_owned();
    path.append(username);
    let b0 = WattpadRequestBuilder::new(HttpMethod::Get, path.as_str());
    let ghost gb0 = b0;
    let r = b0.fields(fields, is_authenticated);
    proof {
        match fields {
            Some(f) => {
                if f@.len() > 0 {
                    lemma_get_request(gb0, f@, is_authenticated, r);
                } else {
                    lemma_get_request_default::<UserField>(gb0, is_authenticated, r);
                }
            },
            None => {
                lemma_get_request_default::<UserField>(gb0, is_authenticated, r);
            },
        }
    }
    r
}

} // verus!
