//! Fields of a `PartContent` object.

use vstd::prelude::*;

use crate::field::AuthRequiredFields;
use crate::field::DefaultableFields;
use crate::field::WireSerialize;

verus! {

/// Represents the fields that can be requested for a `PartContent` object.
#[derive(Debug, Clone, Copy, PartialEq, Eq)]
pub enum PartContentField {
    /// The full text content of the story part.
    Text,
    /// A hash of the text content, likely for caching or integrity checks.
    TextHash,
}

/// The wire token of a `PartContentField`.
pub open spec fn part_content_field_wire(f: PartContentField) -> Seq<char> {
    match f {
        PartContentField::Text => "text"@,
        PartContentField::TextHash => "text_hash"@,
    }
}

impl WireSerialize for PartContentField {
    open spec fn wire(&self) -> Seq<char> {
        part_content_field_wire(*self)
    }

    fn serialize(&self) -> (r: String) {
        match self {
            PartContentField::Text => "text".to_owned(),
            PartContentField::TextHash => "text_hash".to_owned(),
        }
    }
}

impl AuthRequiredFields for PartContentField {
    open spec fn spec_auth_required(&self) -> bool {
        false
    }

    fn auth_required(&self) -> (r: bool) {
        false
    }

    fn auth_required_fields() -> (r: Vec<Self>) {
        Vec::new()
    }
}

impl DefaultableFields for PartContentField {
    open spec fn is_default_selection(s: Seq<Self>) -> bool {
        s == seq![PartContentField::Text]
    }

    fn default_fields() -> (r: Vec<Self>) {
        let r = vec![PartContentField::Text];
        proof {
            assert(r@ =~= seq![PartContentField::Text]);
        }
        r
    }
}

} // verus!
