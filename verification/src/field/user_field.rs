//! Fields of a full `User` object.

use vstd::prelude::*;

use crate::field::AuthRequiredFields;
use crate::field::DefaultableFields;
use crate::field::WireSerialize;

verus! {

/// Represents the fields that can be requested for a `User` object.
#[derive(Debug, Clone, Copy, PartialEq, Eq)]
pub enum UserField {
    /// The user's unique, public username.
    Username,
    /// The URL for the user's profile picture (avatar).
    Avatar,
    /// A boolean flag indicating if the user's profile is private.
    IsPrivate,
    /// The URL for the user's profile background image.
    BackgroundUrl,
    /// The user's full display name.
    Name,
    /// The "About Me" or biography section of the user's profile.
    Description,
    /// A list of badges the user has earned.
    Badges,
    /// The user's current status message.
    Status,
    /// The user's specified gender as a string.
    Gender,
    /// A numerical code representing the user's gender.
    GenderCode,
    /// The numerical identifier for the user's preferred language.
    Language,
    /// The user's locale string (e.g., "en_US").
    Locale,
    /// The timestamp when the user's account was created.
    CreateDate,
    /// The timestamp when the user's profile was last modified.
    ModifyDate,
    /// The user's self-reported location.
    Location,
    /// A boolean flag indicating if the user is a verified account.
    Verified,
    /// A boolean flag indicating if the user is an ambassador.
    Ambassador,
    /// A link to the user's Facebook profile.
    Facebook,
    /// A link to the user's personal website.
    Website,
    /// A link to the user's Lulu profile.
    Lulu,
    /// A link to the user's Smashwords profile.
    Smashwords,
    /// A link to the user's Bubok profile.
    Bubok,
    /// The total number of votes received across all of the user's stories.
    VotesReceived,
    /// The number of stories the user has published.
    NumStoriesPublished,
    /// The number of other users this user is following.
    NumFollowing,
    /// The number of followers this user has.
    NumFollowers,
    /// The number of public messages on the user's profile.
    NumMessages,
    /// The number of public reading lists the user has created.
    NumLists,
    /// A boolean flag indicating if the user has verified their email address.
    VerifiedEmail,
    /// A list of the user's preferred reading categories.
    PreferredCategories,
    /// A boolean flag indicating if the user allows search engine crawlers to
    /// index their profile.
    AllowCrawler,
    /// A deep link URL for the user's profile.
    Deeplink,
}

/// The wire token of a `UserField`.
pub open spec fn user_field_wire(f: UserField) -> Seq<char> {
    match f {
        UserField::Username => "username"@,
        UserField::Avatar => "avatar"@,
        UserField::IsPrivate => "isPrivate"@,
        UserField::BackgroundUrl => "backgroundUrl"@,
        UserField::Name => "name"@,
        UserField::Description => "description"@,
        UserField::Badges => "badges"@,
        UserField::Status => "status"@,
        UserField::Gender => "gender"@,
        UserField::GenderCode => "genderCode"@,
        UserField::Language => "language"@,
        UserField::Locale => "locale"@,
        UserField::CreateDate => "createDate"@,
        UserField::ModifyDate => "modifyDate"@,
        UserField::Location => "location"@,
        UserField::Verified => "verified"@,
        UserField::Ambassador => "ambassador"@,
        UserField::Facebook => "facebook"@,
        UserField::Website => "website"@,
        UserField::Lulu => "lulu"@,
        UserField::Smashwords => "smashwords"@,
        UserField::Bubok => "bubok"@,
        UserField::VotesReceived => "votesReceived"@,
        UserField::NumStoriesPublished => "numStoriesPublished"@,
        UserField::NumFollowing => "numFollowing"@,
        UserField::NumFollowers => "numFollowers"@,
        UserField::NumMessages => "numMessages"@,
        UserField::NumLists => "numLists"@,
        UserField::VerifiedEmail => "verified_email"@,
        UserField::PreferredCategories => "preferred_categories"@,
        UserField::AllowCrawler => "allowCrawler"@,
        UserField::Deeplink => "deeplink"@,
    }
}

impl WireSerialize for UserField {
    open spec fn wire(&self) -> Seq<char> {
        user_field_wire(*self)
    }

    fn serialize(&self) -> (r: String) {
        match self {
            UserField::Username => "username".to_owned(),
            UserField::Avatar => "avatar".to_owned(),
            UserField::IsPrivate => "isPrivate".to_owned(),
            UserField::BackgroundUrl => "backgroundUrl".to_owned(),
            UserField::Name => "name".to_owned(),
            UserField::Description => "description".to_owned(),
            UserField::Badges => "badges".to_owned(),
            UserField::Status => "status".to_owned(),
            UserField::Gender => "gender".to_owned(),
            UserField::GenderCode => "genderCode".to_owned(),
            UserField::Language => "language".to_owned(),
            UserField::Locale => "locale".to_owned(),
            UserField::CreateDate => "createDate".to_owned(),
            UserField::ModifyDate => "modifyDate".to_owned(),
            UserField::Location => "location".to_owned(),
            UserField::Verified => "verified".to_owned(),
            UserField::Ambassador => "ambassador".to_owned(),
            UserField::Facebook => "facebook".to_owned(),
            UserField::Website => "website".to_owned(),
            UserField::Lulu => "lulu".to_owned(),
            UserField::Smashwords => "smashwords".to_owned(),
            UserField::Bubok => "bubok".to_owned(),
            UserField::VotesReceived => "votesReceived".to_owned(),
            UserField::NumStoriesPublished => "numStoriesPublished".to_owned(),
            UserField::NumFollowing => "numFollowing".to_owned(),
            UserField::NumFollowers => "numFollowers".to_owned(),
            UserField::NumMessages => "numMessages".to_owned(),
            UserField::NumLists => "numLists".to_owned(),
            UserField::VerifiedEmail => "verified_email".to_owned(),
            UserField::PreferredCategories => "preferred_categories".to_owned(),
            UserField::AllowCrawler => "allowCrawler".to_owned(),
            UserField::Deeplink => "deeplink".to_owned(),
        }
    }
}

impl AuthRequiredFields for UserField {
    open spec fn spec_auth_required(&self) -> bool {
        false
    }

    fn auth_required(&self) -> (r: bool) {
        false
    }

    fn auth_required_fields() -> (r: Vec<Self>) {
        Vec::new()
    }
}

/// No user field requires authentication, so every user selection passes
/// the authentication gate.
pub proof fn lemma_user_selections_ungated(s: Seq<UserField>)
    ensures
        crate::gate::selection_ungated(s),
{
}

impl DefaultableFields for UserField {
    open spec fn is_default_selection(s: Seq<Self>) -> bool {
        s == seq![
            UserField::Username,
            UserField::Avatar,
            UserField::BackgroundUrl,
            UserField::Name,
            UserField::Description,
            UserField::CreateDate,
            UserField::ModifyDate,
            UserField::VotesReceived,
            UserField::NumStoriesPublished,
            UserField::NumFollowing,
            UserField::NumFollowers,
            UserField::NumMessages,
            UserField::NumLists,
        ]
    }

    fn default_fields() -> (r: Vec<Self>) {
        let r = vec![
            UserField::Username,
            UserField::Avatar,
            UserField::BackgroundUrl,
            UserField::Name,
            UserField::Description,
            UserField::CreateDate,
            UserField::ModifyDate,
            UserField::VotesReceived,
            UserField::NumStoriesPublished,
            UserField::NumFollowing,
            UserField::NumFollowers,
            UserField::NumMessages,
            UserField::NumLists,
        ];
        proof {
            assert(r@ =~= seq![
                UserField::Username,
                UserField::Avatar,
                UserField::BackgroundUrl,
                UserField::Name,
                UserField::Description,
                UserField::CreateDate,
                UserField::ModifyDate,
                UserField::VotesReceived,
                UserField::NumStoriesPublished,
                UserField::NumFollowing,
                UserField::NumFollowers,
                UserField::NumMessages,
                UserField::NumLists,
            ]);
        }
        r
    }
}

} // verus!
