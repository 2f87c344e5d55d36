//! Tests for the field model: wire tokens, composite serialization, default
//! selections, and authentication flags.

use wp_mini::field::join_serialized;
use wp_mini::field::AuthRequiredFields;
use wp_mini::field::DefaultableFields;
use wp_mini::field::LanguageField;
use wp_mini::field::PartContentField;
use wp_mini::field::PartField;
use wp_mini::field::PartReferenceField;
use wp_mini::field::PartStubField;
use wp_mini::field::StoryField;
use wp_mini::field::TextUrlField;
use wp_mini::field::UserField;
use wp_mini::field::UserStubField;
use wp_mini::field::WireSerialize;

#[test]
fn simple_story_tokens() {
    assert_eq!(StoryField::Id.serialize(), "id");
    assert_eq!(StoryField::Title.serialize(), "title");
    assert_eq!(StoryField::VoteCount.serialize(), "voteCount");
    assert_eq!(StoryField::CreatedDate.serialize(), "createdDate");
    assert_eq!(StoryField::CoverTimestamp.serialize(), "cover_timestamp");
    assert_eq!(StoryField::NumParts.serialize(), "numParts");
    assert_eq!(StoryField::FirstPartId.serialize(), "firstPartId");
}

#[test]
fn simple_user_tokens() {
    assert_eq!(UserField::Username.serialize(), "username");
    assert_eq!(UserField::IsPrivate.serialize(), "isPrivate");
    assert_eq!(UserField::GenderCode.serialize(), "genderCode");
    assert_eq!(UserField::VerifiedEmail.serialize(), "verified_email");
    assert_eq!(UserField::PreferredCategories.serialize(), "preferred_categories");
    assert_eq!(UserField::NumStoriesPublished.serialize(), "numStoriesPublished");
    assert_eq!(UserField::AllowCrawler.serialize(), "allowCrawler");
}

#[test]
fn renamed_stub_tokens() {
    assert_eq!(UserStubField::Username.serialize(), "name");
    assert_eq!(UserStubField::FullName.serialize(), "fullname");
    assert_eq!(UserStubField::Avatar.serialize(), "avatar");
    assert_eq!(TextUrlField::Text.serialize(), "text");
    assert_eq!(TextUrlField::RefreshToken.serialize(), "refresh_token");
    assert_eq!(PartContentField::TextHash.serialize(), "text_hash");
    assert_eq!(PartReferenceField::CreateDate.serialize(), "createDate");
    assert_eq!(PartField::VideoID.serialize(), "videoId");
    assert_eq!(PartStubField::HasBannedImages.serialize(), "hasBannedImages");
    assert_eq!(PartStubField::Voted.serialize(), "voted");
}

#[test]
fn composite_two_subfields() {
    let f = StoryField::User(vec![UserStubField::Username, UserStubField::Avatar]);
    assert_eq!(f.serialize(), "user(name,avatar)");
}

#[test]
fn composite_empty_group_is_kept() {
    let f = PartStubField::TextUrl(vec![]);
    assert_eq!(f.serialize(), "text_url()");
    let g = StoryField::Parts(vec![]);
    assert_eq!(g.serialize(), "parts()");
}

#[test]
fn composite_nested_groups() {
    let f = PartField::Group(vec![
        StoryField::Title,
        StoryField::User(vec![UserStubField::Avatar]),
    ]);
    assert_eq!(f.serialize(), "group(title,user(avatar))");
    let h = PartField::TextUrl(vec![TextUrlField::Text, TextUrlField::RefreshToken]);
    assert_eq!(h.serialize(), "text_url(text,refresh_token)");
    let l = StoryField::Language(vec![LanguageField::Id, LanguageField::Name]);
    assert_eq!(l.serialize(), "language(id,name)");
}

#[test]
fn story_default_selection_wire() {
    let d = StoryField::default_fields();
    assert_eq!(d.len(), 25);
    assert_eq!(
        join_serialized(&d),
        "id,title,length,createdDate,modifyDate,voteCount,readCount,commentCount,language(id),\
         description,cover,cover_timestamp,completed,categories,tags,rating,mature,copyright,\
         url,numParts,firstPublishedPart(id),lastPublishedPart(id),parts(id),deleted,user(name)"
    );
}

#[test]
fn part_stub_default_selection_wire() {
    let d = PartStubField::default_fields();
    assert_eq!(
        join_serialized(&d),
        "id,title,text_url(text),rating,videoId,photoUrl,modifyDate"
    );
}

#[test]
fn user_default_selection_wire() {
    let d = UserField::default_fields();
    assert_eq!(
        join_serialized(&d),
        "username,avatar,backgroundUrl,name,description,createDate,modifyDate,votesReceived,\
         numStoriesPublished,numFollowing,numFollowers,numMessages,numLists"
    );
}

#[test]
fn small_default_selections() {
    assert_eq!(join_serialized(&PartField::default_fields()), "id,title,url");
    assert_eq!(join_serialized(&LanguageField::default_fields()), "id");
    assert_eq!(join_serialized(&TextUrlField::default_fields()), "text");
    assert_eq!(join_serialized(&PartContentField::default_fields()), "text");
    assert_eq!(join_serialized(&PartReferenceField::default_fields()), "id");
    assert_eq!(join_serialized(&UserStubField::default_fields()), "name,avatar");
}

#[test]
fn defaults_are_nonempty_and_ungated() {
    assert!(!StoryField::default_fields().is_empty());
    assert!(!PartField::default_fields().is_empty());
    assert!(!PartStubField::default_fields().is_empty());
    assert!(!UserField::default_fields().is_empty());
    for f in StoryField::default_fields() {
        assert!(!f.auth_required());
    }
    for f in PartField::default_fields() {
        assert!(!f.auth_required());
    }
    for f in PartStubField::default_fields() {
        assert!(!f.auth_required());
    }
    for f in UserField::default_fields() {
        assert!(!f.auth_required());
    }
}

#[test]
fn voted_is_the_only_gated_field() {
    assert!(PartStubField::Voted.auth_required());
    assert!(!PartStubField::Deleted.auth_required());
    assert!(!PartStubField::Id.auth_required());
    assert_eq!(PartStubField::auth_required_fields(), vec![PartStubField::Voted]);
    assert!(StoryField::auth_required_fields().is_empty());
    assert!(UserField::auth_required_fields().is_empty());
    assert!(PartField::auth_required_fields().is_empty());
}
