//! Sub-fields of a `text_url` object, which provides expiring URLs for
//! accessing story part content.

use vstd::prelude::*;

use crate::field::AuthRequiredFields;
use crate::field::DefaultableFields;
use crate::field::WireSerialize;

verus! {

/// Represents the sub-fields of a `text_url` object.
#[derive(Debug, Clone, Copy, PartialEq, Eq)]
pub enum TextUrlField {
    /// The direct, often temporary, URL to the story part's text content.
    Text,
    /// A token that can be used to obtain a new URL for the text content.
    RefreshToken,
}

/// The wire token of a `TextUrlField`.
pub open spec fn text_url_field_wire(f: TextUrlField) -> Seq<char> {
    match f {
        TextUrlField::Text => "text"@,
        TextUrlField::RefreshToken => "refresh_token"@,
    }
}

impl WireSerialize for TextUrlField {
    open spec fn wire(&self) -> Seq<char> {
        text_url_field_wire(*self)
    }

    fn serialize(&self) -> (r: String) {
        match self {
            TextUrlField::Text => "text".to_owned(),
            TextUrlField::RefreshToken => "refresh_token".to_owned(),
        }
    }
}

impl AuthRequiredFields for TextUrlField {
    open spec fn spec_auth_required(&self) -> bool {
        false
    }

    fn auth_required(&self) -> (r: bool) {
        false
    }

    fn auth_required_fields() -> (r: Vec<Self>) {
        Vec::new()
    }
}

impl DefaultableFields for TextUrlField {
    open spec fn is_default_selection(s: Seq<Self>) -> bool {
        s == seq![TextUrlField::Text]
    }

    fn default_fields() -> (r: Vec<Self>) {
        let r = vec![TextUrlField::Text];
        proof {
            assert(r@ =~= seq![TextUrlField::Text]);
        }
        r
    }
}

} // verus!
