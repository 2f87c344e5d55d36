//! The user-stub record: a lightweight summary of a user, embedded in other
//! records, which can be upgraded to a full profile.

use vstd::prelude::*;

use crate::endpoints::spec_get_request_default;
use crate::endpoints::user::user_info_path;
use crate::endpoints::user::user_info_request;
use crate::error::WattpadError;
use crate::field::UserField;
use crate::model::missing_field_error;
use crate::request::WattpadRequestBuilder;

verus! {

/// Represents a lightweight stub of a user.
#[derive(Debug, Clone)]
pub struct UserStub {
    /// The user's unique username.
    pub username: Option<String>,
    /// The URL for the user's profile picture (avatar).
    pub avatar: Option<String>,
    /// The user's full display name.
    pub fullname: Option<String>,
    /// A boolean flag indicating if the user is a verified account.
    pub verified: Option<bool>,
}

impl UserStub {
    /// Builds the request that upgrades this stub to the full user profile,
    /// with the default field selection. Fails, without building a request,
    /// when the stub lacks its username.
    pub fn full_profile_request(&self, is_authenticated: bool) -> (r: Result<
        WattpadRequestBuilder,
        WattpadError,
    >)
        ensures
            self.username matches Some(u) ==> spec_get_request_default::<UserField>(
                user_info_path(u@),
                is_authenticated,
                r,
            ),
            self.username is None ==> (r matches Err(e) && missing_field_error(
                e,
                "username"@,
                "Cannot fetch full profile without a username."@,
            )),
    {
        match &self.username {
            Some(u) => user_info_request(u.as_str(), None, is_authenticated),
            None => Err(
                WattpadError::MissingRequiredField {
                    field: "username".to_owned(),
                    context: "Cannot fetch full profile without a username.".to_owned(),
                },
            ),
        }
    }
}

} // verus!
