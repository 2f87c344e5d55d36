//! Fields of a `PartStub` object, a lightweight summary of a story part.

use vstd::prelude::*;

use crate::field::join_serialized;
use crate::field::wires_of;
use crate::field::AuthRequiredFields;
use crate::field::DefaultableFields;
use crate::field::TextUrlField;
use crate::field::WireSerialize;
use crate::wire::join_comma;

verus! {

/// Represents the fields that can be requested for a `PartStub` object.
#[derive(Debug, Clone, PartialEq, Eq)]
pub enum PartStubField {
    /// The unique numerical identifier of the story part.
    Id,
    /// The title of the story part.
    Title,
    /// A direct URL to the story part on the website.
    Url,
    /// A composite field for URLs related to the part's text content, with
    /// selectable sub-fields.
    TextUrl(Vec<TextUrlField>),
    /// The content rating of the story part.
    Rating,
    /// A boolean flag indicating whether the part is a draft.
    Draft,
    /// The timestamp when the part was created.
    CreateDate,
    /// The timestamp when the part was last modified.
    ModifyDate,
    /// A boolean flag indicating if the part contains banned images.
    HasBannedImages,
    /// The length of the story part.
    Length,
    /// The ID of any video associated with the part.
    VideoId,
    /// The URL for the part's cover image.
    PhotoUrl,
    /// The total number of comments on the part.
    CommentCount,
    /// The total number of votes the part has received.
    VoteCount,
    /// The total number of reads the part has received.
    ReadCount,
    /// A boolean flag indicating if the currently authenticated user has
    /// voted for this part. Requires authentication.
    Voted,
    /// A boolean flag indicating whether the part has been deleted.
    Deleted,
}

/// The wire form of a `PartStubField`: a single token, except for the
/// composite `text_url` field, whose sub-selection is always appended as a
/// parenthesized group.
pub open spec fn part_stub_field_wire(f: PartStubField) -> Seq<char> {
    match f {
        PartStubField::Id => "id"@,
        PartStubField::Title => "title"@,
        PartStubField::Url => "url"@,
        PartStubField::TextUrl(subs) => "text_url"@ + "("@ + join_comma(wires_of(subs@)) + ")"@,
        PartStubField::Rating => "rating"@,
        PartStubField::Draft => "draft"@,
        PartStubField::CreateDate => "createDate"@,
        PartStubField::ModifyDate => "modifyDate"@,
        PartStubField::HasBannedImages => "hasBannedImages"@,
        PartStubField::Length => "length"@,
        PartStubField::VideoId => "videoId"@,
        PartStubField::PhotoUrl => "photoUrl"@,
        PartStubField::CommentCount => "commentCount"@,
        PartStubField::VoteCount => "voteCount"@,
        PartStubField::ReadCount => "readCount"@,
        PartStubField::Voted => "voted"@,
        PartStubField::Deleted => "deleted"@,
    }
}

impl WireSerialize for PartStubField {
    open spec fn wire(&self) -> Seq<char> {
        part_stub_field_wire(*self)
    }

    fn serialize(&self) -> (r: String) {
        match self {
            PartStubField::Id => "id".to_owned(),
            PartStubField::Title => "title".to_owned(),
            PartStubField::Url => "url".to_owned(),
            PartStubField::TextUrl(subs) => {
                let mut s = "text_url".to_owned();
                s.append("(");
                let joined = join_serialized(subs);
                s.append(joined.as_str());
                s.append(")");
                s
            },
            PartStubField::Rating => "rating".to_owned(),
            PartStubField::Draft => "draft".to_owned(),
            PartStubField::CreateDate => "createDate".to_owned(),
            PartStubField::ModifyDate => "modifyDate".to_owned(),
            PartStubField::HasBannedImages => "hasBannedImages".to_owned(),
            PartStubField::Length => "length".to_owned(),
            PartStubField::VideoId => "videoId".to_owned(),
            PartStubField::PhotoUrl => "photoUrl".to_owned(),
            PartStubField::CommentCount => "commentCount".to_owned(),
            PartStubField::VoteCount => "voteCount".to_owned(),
            PartStubField::ReadCount => "readCount".to_owned(),
            PartStubField::Voted => "voted".to_owned(),
            PartStubField::Deleted => "deleted".to_owned(),
        }
    }
}

impl AuthRequiredFields for PartStubField {
    open spec fn spec_auth_required(&self) -> bool {
        *self is Voted
    }

    fn auth_required(&self) -> (r: bool) {
        match self {
            PartStubField::Voted => true,
            _ => false,
        }
    }

    fn auth_required_fields() -> (r: Vec<Self>) {
        let r = vec![PartStubField::Voted];
        proof {
            assert(r@ =~= seq![PartStubField::Voted]);
            assert forall|f: Self| #[trigger] f.spec_auth_required() implies r@.contains(f) by {
                assert(r@[0] == PartStubField::Voted);
            }
        }
        r
    }
}

/// The default part-stub selection passes the authentication gate: none of
/// its entries is the auth-required `voted` field.
pub proof fn lemma_part_stub_default_ungated(d: Seq<PartStubField>)
    requires
        PartStubField::is_default_selection(d),
    ensures
        crate::gate::selection_ungated(d),
{
    assert forall|i: int| 0 <= i < d.len() implies !(#[trigger] d[i]).spec_auth_required() by {
        assert(!(d[2] is Voted));
    }
}

impl DefaultableFields for PartStubField {
    open spec fn is_default_selection(s: Seq<Self>) -> bool {
        &&& s.len() == 7
        &&& s[0] == PartStubField::Id
        &&& s[1] == PartStubField::Title
        &&& s[2] matches PartStubField::TextUrl(subs) && subs@ == seq![TextUrlField::Text]
        &&& s[3] == PartStubField::Rating
        &&& s[4] == PartStubField::VideoId
        &&& s[5] == PartStubField::PhotoUrl
        &&& s[6] == PartStubField::ModifyDate
    }

    fn default_fields() -> (r: Vec<Self>) {
        let r = vec![
            PartStubField::Id,
            PartStubField::Title,
            PartStubField::TextUrl(vec![TextUrlField::Text]),
            PartStubField::Rating,
            PartStubField::VideoId,
            PartStubField::PhotoUrl,
            PartStubField::ModifyDate,
        ];
        proof {
            assert(r@[2] matches PartStubField::TextUrl(subs) && subs@ =~= seq![TextUrlField::Text]);
        }
        r
    }
}

} // verus!
