//! Fields of a `Language` object.

use vstd::prelude::*;

use crate::field::AuthRequiredFields;
use crate::field::DefaultableFields;
use crate::field::WireSerialize;

verus! {

/// Represents the fields that can be requested for a `Language` object.
#[derive(Debug, Clone, Copy, PartialEq, Eq)]
pub enum LanguageField {
    /// The unique numerical identifier of the language.
    Id,
    /// The full name of the language (e.g., "English").
    Name,
}

/// The wire token of a `LanguageField`.
pub open spec fn language_field_wire(f: LanguageField) -> Seq<char> {
    match f {
        LanguageField::Id => "id"@,
        LanguageField::Name => "name"@,
    }
}

impl WireSerialize for LanguageField {
    open spec fn wire(&self) -> Seq<char> {
        language_field_wire(*self)
    }

    fn serialize(&self) -> (r: String) {
        match self {
            LanguageField::Id => "id".to_owned(),
            LanguageField::Name => "name".to_owned(),
        }
    }
}

impl AuthRequiredFields for LanguageField {
    open spec fn spec_auth_required(&self) -> bool {
        false
    }

    fn auth_required(&self) -> (r: bool) {
        false
    }

    fn auth_required_fields() -> (r: Vec<Self>) {
        Vec::new()
    }
}

impl DefaultableFields for LanguageField {
    open spec fn is_default_selection(s: Seq<Self>) -> bool {
        s == seq![LanguageField::Id]
    }

    fn default_fields() -> (r: Vec<Self>) {
        let r = vec![LanguageField::Id];
        proof {
            assert(r@ =~= seq![LanguageField::Id]);
        }
        r
    }
}

} // verus!
