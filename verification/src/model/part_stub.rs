//! The part-stub record: a lightweight summary of a story part, which can be
//! upgraded to the full part.

use vstd::prelude::*;

use crate::endpoints::spec_get_request_default;
use crate::endpoints::story::part_info_path;
use crate::endpoints::story::part_info_request;
use crate::error::WattpadError;
use crate::field::PartField;
use crate::model::missing_field_error;
use crate::model::TextUrl;
use crate::request::WattpadRequestBuilder;

verus! {

/// Represents a lightweight stub of a story part.
#[derive(Debug, Clone)]
pub struct PartStub {
    /// The unique numerical identifier of the story part.
    pub id: Option<u64>,
    /// The title of the story part.
    pub title: Option<String>,
    /// A direct URL to the story part on the website.
    pub url: Option<String>,
    /// An object containing URLs for accessing the part's text content.
    pub text_url: Option<TextUrl>,
    /// The content rating of the story part.
    pub rating: Option<i64>,
    /// A boolean flag indicating whether the part is a draft.
    pub draft: Option<bool>,
    /// The timestamp when the part was last modified.
    pub modify_date: Option<String>,
    /// The timestamp when the part was created.
    pub create_date: Option<String>,
    /// A boolean flag indicating if the part contains banned images.
    pub has_banned_images: Option<bool>,
    /// The length of the story part.
    pub length: Option<i64>,
    /// The ID of any video associated with the part.
    pub video_id: Option<String>,
    /// The URL for the part's cover image.
    pub photo_url: Option<String>,
    /// The total number of comments on the part.
    pub comment_count: Option<i64>,
    /// The total number of votes the part has received.
    pub vote_count: Option<i64>,
    /// The total number of reads the part has received.
    pub read_count: Option<i64>,
    /// A boolean flag indicating if the currently authenticated user has
    /// voted for this part. Requires authentication to be requested.
    pub voted: Option<bool>,
    /// A boolean flag indicating whether the part has been deleted.
    pub deleted: Option<bool>,
}

impl PartStub {
    /// Builds the request that upgrades this stub to the full part, with the
    /// default field selection. Fails, without building a request, when the
    /// stub lacks its identifier.
    pub fn full_part_request(&self, is_authenticated: bool) -> (r: Result<
        WattpadRequestBuilder,
        WattpadError,
    >)
        ensures
            self.id matches Some(id) ==> spec_get_request_default::<PartField>(
                part_info_path(id),
                is_authenticated,
                r,
            ),
            self.id is None ==> (r matches Err(e) && missing_field_error(
                e,
                "id"@,
                "Cannot fetch full part without an id."@,
            )),
    {
        match self.id {
            Some(id) => part_info_request(id, None, is_authenticated),
            None => Err(
                WattpadError::MissingRequiredField {
                    field: "id".to_owned(),
                    context: "Cannot fetch full part without an id.".to_owned(),
                },
            ),
        }
    }
}

} // verus!
