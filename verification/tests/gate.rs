//! Tests for the authentication gate.

use wp_mini::field::PartStubField;
use wp_mini::field::StoryField;
use wp_mini::gate::check;
use wp_mini::WattpadError;

#[test]
fn authenticated_passes_any_selection() {
    let gated = vec![PartStubField::Voted, PartStubField::Id];
    assert!(check(&gated, true).is_ok());
    let empty: Vec<PartStubField> = vec![];
    assert!(check(&empty, true).is_ok());
}

#[test]
fn unauthenticated_passes_ungated_selection() {
    let sel = vec![StoryField::Title, StoryField::VoteCount];
    assert!(check(&sel, false).is_ok());
    let sel2 = vec![PartStubField::Id, PartStubField::Deleted];
    assert!(check(&sel2, false).is_ok());
    let empty: Vec<PartStubField> = vec![];
    assert!(check(&empty, false).is_ok());
}

#[test]
fn unauthenticated_fails_on_gated_field() {
    let sel = vec![PartStubField::Id, PartStubField::Voted];
    match check(&sel, false) {
        Err(WattpadError::AuthenticationRequired { field, context }) => {
            assert_eq!(field, "voted");
            assert_eq!(context, "The field 'voted' requires authentication.");
        },
        other => panic!("expected an authentication error, got {:?}", other),
    }
}

#[test]
fn first_gated_entry_is_reported() {
    // only `voted` is gated, so the first gated entry is the first `voted`;
    // scanning must stop there
    let sel = vec![PartStubField::Title, PartStubField::Voted, PartStubField::Voted];
    match check(&sel, false) {
        Err(WattpadError::AuthenticationRequired { field, .. }) => {
            assert_eq!(field, "voted");
        },
        other => panic!("expected an authentication error, got {:?}", other),
    }
}

#[test]
fn nested_gated_subfield_is_not_gated_locally() {
    // only the top-level selection is walked: an auth-gated field inside a
    // composite sub-selection is accepted locally and left to the remote
    // API — a known limitation, kept deliberately
    let sel = vec![StoryField::Parts(vec![PartStubField::Voted])];
    assert!(check(&sel, false).is_ok());
}
