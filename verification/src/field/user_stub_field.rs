//! Fields of a `UserStub` object, a lightweight summary of a user that other
//! objects embed.

use vstd::prelude::*;

use crate::field::AuthRequiredFields;
use crate::field::DefaultableFields;
use crate::field::WireSerialize;

verus! {

/// Represents the fields that can be requested for a `UserStub` object.
#[derive(Debug, Clone, Copy, PartialEq, Eq)]
pub enum UserStubField {
    /// The user's unique username.
    Username,
    /// The URL for the user's profile picture (avatar).
    Avatar,
    /// The user's full display name.
    FullName,
    /// A boolean flag indicating if the user is a verified account.
    Verified,
}

/// The wire token of a `UserStubField`.
pub open spec fn user_stub_field_wire(f: UserStubField) -> Seq<char> {
    match f {
        UserStubField::Username => "name"@,
        UserStubField::Avatar => "avatar"@,
        UserStubField::FullName => "fullname"@,
        UserStubField::Verified => "verified"@,
    }
}

impl WireSerialize for UserStubField {
    open spec fn wire(&self) -> Seq<char> {
        user_stub_field_wire(*self)
    }

    fn serialize(&self) -> (r: String) {
        match self {
            UserStubField::Username => "name".to_owned(),
            UserStubField::Avatar => "avatar".to_owned(),
            UserStubField::FullName => "fullname".to_owned(),
            UserStubField::Verified => "verified".to_owned(),
        }
    }
}

impl AuthRequiredFields for UserStubField {
    open spec fn spec_auth_required(&self) -> bool {
        false
    }

    fn auth_required(&self) -> (r: bool) {
        false
    }

    fn auth_required_fields() -> (r: Vec<Self>) {
        Vec::new()
    }
}

impl DefaultableFields for UserStubField {
    open spec fn is_default_selection(s: Seq<Self>) -> bool {
        s == seq![UserStubField::Username, UserStubField::Avatar]
    }

    fn default_fields() -> (r: Vec<Self>) {
        let r = vec![UserStubField::Username, UserStubField::Avatar];
        proof {
            assert(r@ =~= seq![UserStubField::Username, UserStubField::Avatar]);
        }
        r
    }
}

} // verus!
