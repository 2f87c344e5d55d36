//! The part-reference record: a lightweight link to a story part, which can
//! be upgraded to the full part.

use vstd::prelude::*;

use crate::endpoints::spec_get_request_default;
use crate::endpoints::story::part_info_path;
use crate::endpoints::story::part_info_request;
use crate::error::WattpadError;
use crate::field::PartField;
use crate::model::missing_field_error;
use crate::request::WattpadRequestBuilder;

verus! {

/// Represents a lightweight reference to a story part.
#[derive(Debug, Clone)]
pub struct PartReference {
    /// The unique numerical identifier of the story part.
    pub id: Option<u64>,
    /// The timestamp when the part was created.
    pub create_date: Option<String>,
}

impl PartReference {
    /// Builds the request that upgrades this reference to the full part,
    /// with the default field selection. Fails, without building a request,
    /// when the reference lacks its identifier.
    pub fn full_part_request(&self, is_authenticated: bool) -> (r: Result<
        WattpadRequestBuilder,
        WattpadError,
    >)
        ensures
            self.id matches Some(id) ==> spec_get_request_default::<PartField>(
                part_info_path(id),
                is_authenticated,
                r,
            ),
            self.id is None ==> (r matches Err(e) && missing_field_error(
                e,
                "id"@,
                "Cannot fetch full part without an id."@,
            )),
    {
        match self.id {
            Some(id) => part_info_request(id, None, is_authenticated),
            None => Err(
                WattpadError::MissingRequiredField {
                    field: "id".to_owned(),
                    context: "Cannot fetch full part without an id.".to_owned(),
                },
            ),
        }
    }
}

} // verus!
