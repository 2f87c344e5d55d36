//! Fields of a full `Story` object.

use vstd::prelude::*;

use crate::field::join_serialized;
use crate::field::wires_of;
use crate::field::AuthRequiredFields;
use crate::field::DefaultableFields;
use crate::field::LanguageField;
use crate::field::PartReferenceField;
use crate::field::PartStubField;
use crate::field::UserStubField;
use crate::field::WireSerialize;
use crate::wire::join_comma;

verus! {

/// Represents the fields that can be requested for a `Story` object.
#[derive(Debug, Clone, PartialEq, Eq)]
pub enum StoryField {
    /// The unique numerical identifier of the story.
    Id,
    /// The title of the story.
    Title,
    /// The estimated reading time of the story in seconds.
    Length,
    /// The timestamp when the story was created.
    CreatedDate,
    /// The timestamp when the story was last modified.
    ModifyDate,
    /// The total number of votes the story has received.
    VoteCount,
    /// The total number of reads the story has received.
    ReadCount,
    /// The total number of comments on the story.
    CommentCount,
    /// A composite field for the story's language, with selectable sub-fields.
    Language(Vec<LanguageField>),
    /// A composite field representing the author of the story, with
    /// selectable sub-fields.
    User(Vec<UserStubField>),
    /// The story's description or synopsis.
    Description,
    /// The URL for the story's cover image.
    Cover,
    /// The timestamp when the cover image was last updated.
    CoverTimestamp,
    /// A boolean flag indicating whether the story is marked as complete.
    Completed,
    /// A list of category IDs that the story belongs to.
    Categories,
    /// A list of user-defined tags associated with the story.
    Tags,
    /// The content rating of the story (e.g., Everyone, Mature).
    Rating,
    /// A boolean flag indicating if the story is intended for a mature
    /// audience.
    Mature,
    /// The copyright or license identifier for the story.
    Copyright,
    /// A direct URL to the story on the website.
    Url,
    /// The total number of published parts in the story.
    NumParts,
    /// The unique identifier of the first part of the story.
    FirstPartId,
    /// A composite field for a lightweight reference to the first published
    /// part, with sub-fields.
    FirstPublishedPart(Vec<PartReferenceField>),
    /// A composite field for a lightweight reference to the last published
    /// part, with sub-fields.
    LastPublishedPart(Vec<PartReferenceField>),
    /// A composite field for the list of parts in the story, with selectable
    /// sub-fields for each part.
    Parts(Vec<PartStubField>),
    /// A boolean flag indicating whether the story has been deleted.
    Deleted,
}

/// The wire form of a `StoryField`: a single token for simple fields; for
/// composite fields, the token followed by the parenthesized, comma-joined
/// sub-selection.
pub open spec fn story_field_wire(f: StoryField) -> Seq<char> {
    match f {
        StoryField::Id => "id"@,
        StoryField::Title => "title"@,
        StoryField::Length => "length"@,
        StoryField::CreatedDate => "createdDate"@,
        StoryField::ModifyDate => "modifyDate"@,
        StoryField::VoteCount => "voteCount"@,
        StoryField::ReadCount => "readCount"@,
        StoryField::CommentCount => "commentCount"@,
        StoryField::Language(subs) => "language"@ + "("@ + join_comma(wires_of(subs@)) + ")"@,
        StoryField::User(subs) => "user"@ + "("@ + join_comma(wires_of(subs@)) + ")"@,
        StoryField::Description => "description"@,
        StoryField::Cover => "cover"@,
        StoryField::CoverTimestamp => "cover_timestamp"@,
        StoryField::Completed => "completed"@,
        StoryField::Categories => "categories"@,
        StoryField::Tags => "tags"@,
        StoryField::Rating => "rating"@,
        StoryField::Mature => "mature"@,
        StoryField::Copyright => "copyright"@,
        StoryField::Url => "url"@,
        StoryField::NumParts => "numParts"@,
        StoryField::FirstPartId => "firstPartId"@,
        StoryField::FirstPublishedPart(subs) => "firstPublishedPart"@ + "("@ + join_comma(
            wires_of(subs@),
        ) + ")"@,
        StoryField::LastPublishedPart(subs) => "lastPublishedPart"@ + "("@ + join_comma(
            wires_of(subs@),
        ) + ")"@,
        StoryField::Parts(subs) => "parts"@ + "("@ + join_comma(wires_of(subs@)) + ")"@,
        StoryField::Deleted => "deleted"@,
    }
}

impl WireSerialize for StoryField {
    open spec fn wire(&self) -> Seq<char> {
        story_field_wire(*self)
    }

    fn serialize(&self) -> (r: String) {
        match self {
            StoryField::Id => "id".to_owned(),
            StoryField::Title => "title".to_owned(),
            StoryField::Length => "length".to_owned(),
            StoryField::CreatedDate => "createdDate".to_owned(),
            StoryField::ModifyDate => "modifyDate".to_owned(),
            StoryField::VoteCount => "voteCount".to_owned(),
            StoryField::ReadCount => "readCount".to_owned(),
            StoryField::CommentCount => "commentCount".to_owned(),
            StoryField::Language(subs) => {
                let mut s = "language".to_owned();
                s.append("(");
                let joined = join_serialized(subs);
                s.append(joined.as_str());
                s.append(")");
                s
            },
            StoryField::User(subs) => {
                let mut s = "user".to_owned();
                s.append("(");
                let joined = join_serialized(subs);
                s.append(joined.as_str());
                s.append(")");
                s
            },
            StoryField::Description => "description".to_owned(),
            StoryField::Cover => "cover".to_owned(),
            StoryField::CoverTimestamp => "cover_timestamp".to_owned(),
            StoryField::Completed => "completed".to_owned(),
            StoryField::Categories => "categories".to_owned(),
            StoryField::Tags => "tags".to_owned(),
            StoryField::Rating => "rating".to_owned(),
            StoryField::Mature => "mature".to_owned(),
            StoryField::Copyright => "copyright".to_owned(),
            StoryField::Url => "url".to_owned(),
            StoryField::NumParts => "numParts".to_owned(),
            StoryField::FirstPartId => "firstPartId".to_owned(),
            StoryField::FirstPublishedPart(subs) => {
                let mut s = "firstPublishedPart".to_owned();
                s.append("(");
                let joined = join_serialized(subs);
                s.append(joined.as_str());
                s.append(")");
                s
            },
            StoryField::LastPublishedPart(subs) => {
                let mut s = "lastPublishedPart".to_owned();
                s.append("(");
                let joined = join_serialized(subs);
                s.append(joined.as_str());
                s.append(")");
                s
            },
            StoryField::Parts(subs) => {
                let mut s = "parts".to_owned();
                s.append("(");
                let joined = join_serialized(subs);
                s.append(joined.as_str());
                s.append(")");
                s
            },
            StoryField::Deleted => "deleted".to_owned(),
        }
    }
}

impl AuthRequiredFields for StoryField {
    open spec fn spec_auth_required(&self) -> bool {
        false
    }

    fn auth_required(&self) -> (r: bool) {
        false
    }

    fn auth_required_fields() -> (r: Vec<Self>) {
        Vec::new()
    }
}

/// No story field requires authentication, so every story selection passes
/// the authentication gate.
pub proof fn lemma_story_selections_ungated(s: Seq<StoryField>)
    ensures
        crate::gate::selection_ungated(s),
{
}

impl DefaultableFields for StoryField {
    open spec fn is_default_selection(s: Seq<Self>) -> bool {
        &&& s.len() == 25
        &&& s[0] == StoryField::Id
        &&& s[1] == StoryField::Title
        &&& s[2] == StoryField::Length
        &&& s[3] == StoryField::CreatedDate
        &&& s[4] == StoryField::ModifyDate
        &&& s[5] == StoryField::VoteCount
        &&& s[6] == StoryField::ReadCount
        &&& s[7] == StoryField::CommentCount
        &&& s[8] matches StoryField::Language(subs) && subs@ == seq![LanguageField::Id]
        &&& s[9] == StoryField::Description
        &&& s[10] == StoryField::Cover
        &&& s[11] == StoryField::CoverTimestamp
        &&& s[12] == StoryField::Completed
        &&& s[13] == StoryField::Categories
        &&& s[14] == StoryField::Tags
        &&& s[15] == StoryField::Rating
        &&& s[16] == StoryField::Mature
        &&& s[17] == StoryField::Copyright
        &&& s[18] == StoryField::Url
        &&& s[19] == StoryField::NumParts
        &&& s[20] matches StoryField::FirstPublishedPart(subs) && subs@ == seq![
            PartReferenceField::Id,
        ]
        &&& s[21] matches StoryField::LastPublishedPart(subs) && subs@ == seq![
            PartReferenceField::Id,
        ]
        &&& s[22] matches StoryField::Parts(subs) && subs@ == seq![PartStubField::Id]
        &&& s[23] == StoryField::Deleted
        &&& s[24] matches StoryField::User(subs) && subs@ == seq![UserStubField::Username]
    }

    fn default_fields() -> (r: Vec<Self>) {
        let r = vec![
            StoryField::Id,
            StoryField::Title,
            StoryField::Length,
            StoryField::CreatedDate,
            StoryField::ModifyDate,
            StoryField::VoteCount,
            StoryField::ReadCount,
            StoryField::CommentCount,
            StoryField::Language(vec![LanguageField::Id]),
            StoryField::Description,
            StoryField::Cover,
            StoryField::CoverTimestamp,
            StoryField::Completed,
            StoryField::Categories,
            StoryField::Tags,
            StoryField::Rating,
            StoryField::Mature,
            StoryField::Copyright,
            StoryField::Url,
            StoryField::NumParts,
            StoryField::FirstPublishedPart(vec![PartReferenceField::Id]),
            StoryField::LastPublishedPart(vec![PartReferenceField::Id]),
            StoryField::Parts(vec![PartStubField::Id]),
            StoryField::Deleted,
            StoryField::User(vec![UserStubField::Username]),
        ];
        proof {
            assert(r@[8] matches StoryField::Language(subs) && subs@ =~= seq![LanguageField::Id]);
            assert(r@[20] matches StoryField::FirstPublishedPart(subs) && subs@ =~= seq![
                PartReferenceField::Id,
            ]);
            assert(r@[21] matches StoryField::LastPublishedPart(subs) && subs@ =~= seq![
                PartReferenceField::Id,
            ]);
            assert(r@[22] matches StoryField::Parts(subs) && subs@ =~= seq![PartStubField::Id]);
            assert(r@[24] matches StoryField::User(subs) && subs@ =~= seq![UserStubField::Username]);
        }
        r
    }
}

} // verus!
