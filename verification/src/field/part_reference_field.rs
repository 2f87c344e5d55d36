//! Fields of a `PartReference` object, a lightweight link to a story part.

use vstd::prelude::*;

use crate::field::AuthRequiredFields;
use crate::field::DefaultableFields;
use crate::field::WireSerialize;

verus! {

/// Represents the fields that can be requested for a `PartReference` object.
#[derive(Debug, Clone, Copy, PartialEq, Eq)]
pub enum PartReferenceField {
    /// The unique numerical identifier of the story part.
    Id,
    /// The timestamp when the part was created.
    CreateDate,
}

/// The wire token of a `PartReferenceField`.
pub open spec fn part_reference_field_wire(f: PartReferenceField) -> Seq<char> {
    match f {
        PartReferenceField::Id => "id"@,
        PartReferenceField::CreateDate => "createDate"@,
    }
}

impl WireSerialize for PartReferenceField {
    open spec fn wire(&self) -> Seq<char> {
        part_reference_field_wire(*self)
    }

    fn serialize(&self) -> (r: String) {
        match self {
            PartReferenceField::Id => "id".to_owned(),
            PartReferenceField::CreateDate => "createDate".to_owned(),
        }
    }
}

impl AuthRequiredFields for PartReferenceField {
    open spec fn spec_auth_required(&self) -> bool {
        false
    }

    fn auth_required(&self) -> (r: bool) {
        false
    }

    fn auth_required_fields() -> (r: Vec<Self>) {
        Vec::new()
    }
}

impl DefaultableFields for PartReferenceField {
    open spec fn is_default_selection(s: Seq<Self>) -> bool {
        s == seq![PartReferenceField::Id]
    }

    fn default_fields() -> (r: Vec<Self>) {
        let r = vec![PartReferenceField::Id];
        proof {
            assert(r@ =~= seq![PartReferenceField::Id]);
        }
        r
    }
}

} // verus!
