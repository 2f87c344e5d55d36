//! Fields of a full `Part` object.

use vstd::prelude::*;

use crate::field::join_serialized;
use crate::field::wires_of;
use crate::field::AuthRequiredFields;
use crate::field::DefaultableFields;
use crate::field::StoryField;
use crate::field::TextUrlField;
use crate::field::WireSerialize;
use crate::wire::join_comma;

verus! {

/// Represents the fields that can be requested for a `Part` object.
#[derive(Debug, Clone, PartialEq, Eq)]
pub enum PartField {
    /// The unique numerical identifier of the story part.
    Id,
    /// The title of the story part.
    Title,
    /// A direct URL to the story part on the website.
    Url,
    /// A composite field for URLs related to the part's text content, with
    /// selectable sub-fields.
    TextUrl(Vec<TextUrlField>),
    /// The content rating of the story part.
    Rating,
    /// A boolean flag indicating whether the part is a draft.
    Draft,
    /// The timestamp when the part was last modified.
    ModifyDate,
    /// The timestamp when the part was created.
    CreateDate,
    /// A boolean flag indicating if the part contains banned images.
    HasBannedImages,
    /// The length of the story part.
    Length,
    /// The ID of any video associated with the part.
    VideoID,
    /// The URL for the part's cover image.
    PhotoUrl,
    /// The total number of comments on the part.
    CommentCount,
    /// The total number of votes the part has received.
    VoteCount,
    /// The total number of reads the part has received.
    ReadCount,
    /// The unique identifier of the parent story (also known as group ID).
    GroupId,
    /// A composite field for the parent story, with selectable sub-fields.
    Group(Vec<StoryField>),
    /// A boolean flag indicating whether the part has been deleted.
    Deleted,
}

/// The wire form of a `PartField`: a single token for simple fields; for the
/// composite `text_url` and `group` fields, the token followed by the
/// parenthesized, comma-joined sub-selection.
pub open spec fn part_field_wire(f: PartField) -> Seq<char> {
    match f {
        PartField::Id => "id"@,
        PartField::Title => "title"@,
        PartField::Url => "url"@,
        PartField::TextUrl(subs) => "text_url"@ + "("@ + join_comma(wires_of(subs@)) + ")"@,
        PartField::Rating => "rating"@,
        PartField::Draft => "draft"@,
        PartField::ModifyDate => "modifyDate"@,
        PartField::CreateDate => "createDate"@,
        PartField::HasBannedImages => "hasBannedImages"@,
        PartField::Length => "length"@,
        PartField::VideoID => "videoId"@,
        PartField::PhotoUrl => "photoUrl"@,
        PartField::CommentCount => "commentCount"@,
        PartField::VoteCount => "voteCount"@,
        PartField::ReadCount => "readCount"@,
        PartField::GroupId => "groupId"@,
        PartField::Group(subs) => "group"@ + "("@ + join_comma(wires_of(subs@)) + ")"@,
        PartField::Deleted => "deleted"@,
    }
}

impl WireSerialize for PartField {
    open spec fn wire(&self) -> Seq<char> {
        part_field_wire(*self)
    }

    fn serialize(&self) -> (r: String) {
        match self {
            PartField::Id => "id".to_owned(),
            PartField::Title => "title".to_owned(),
            PartField::Url => "url".to_owned(),
            PartField::TextUrl(subs) => {
                let mut s = "text_url".to_owned();
                s.append("(");
                let joined = join_serialized(subs);
                s.append(joined.as_str());
                s.append(")");
                s
            },
            PartField::Rating => "rating".to_owned(),
            PartField::Draft => "draft".to_owned(),
            PartField::ModifyDate => "modifyDate".to_owned(),
            PartField::CreateDate => "createDate".to_owned(),
            PartField::HasBannedImages => "hasBannedImages".to_owned(),
            PartField::Length => "length".to_owned(),
            PartField::VideoID => "videoId".to_owned(),
            PartField::PhotoUrl => "photoUrl".to_owned(),
            PartField::CommentCount => "commentCount".to_owned(),
            PartField::VoteCount => "voteCount".to_owned(),
            PartField::ReadCount => "readCount".to_owned(),
            PartField::GroupId => "groupId".to_owned(),
            PartField::Group(subs) => {
                let mut s = "group".to_owned();
                s.append("(");
                let joined = join_serialized(subs);
                s.append(joined.as_str());
                s.append(")");
                s
            },
            PartField::Deleted => "deleted".to_owned(),
        }
    }
}

impl AuthRequiredFields for PartField {
    open spec fn spec_auth_required(&self) -> bool {
        false
    }

    fn auth_required(&self) -> (r: bool) {
        false
    }

    fn auth_required_fields() -> (r: Vec<Self>) {
        Vec::new()
    }
}

/// No field of a full part requires authentication, so every part selection
/// passes the authentication gate.
pub proof fn lemma_part_selections_ungated(s: Seq<PartField>)
    ensures
        crate::gate::selection_ungated(s),
{
}

impl DefaultableFields for PartField {
    open spec fn is_default_selection(s: Seq<Self>) -> bool {
        s == seq![PartField::Id, PartField::Title, PartField::Url]
    }

    fn default_fields() -> (r: Vec<Self>) {
        let r = vec![PartField::Id, PartField::Title, PartField::Url];
        proof {
            assert(r@ =~= seq![PartField::Id, PartField::Title, PartField::Url]);
        }
        r
    }
}

} // verus!
