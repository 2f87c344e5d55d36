//! Public type aliases for the data records returned by API endpoints,
//! giving consumers a consistent `...Response` naming convention.

use vstd::prelude::*;

use crate::model;

verus! {

/// The response data for a full user object.
pub type UserResponse = model::User;

/// The response data for a lightweight user stub.
pub type UserStubResponse = model::UserStub;

/// The response data for a full story object.
pub type StoryResponse = model::Story;

/// The response data for a lightweight story part reference.
pub type PartReferenceResponse = model::PartReference;

/// The response data for a lightweight story part stub.
pub type PartStubResponse = model::PartStub;

/// The response data for a full story part object.
pub type PartResponse = model::Part;

/// The response data for a text URL object.
pub type TextUrlResponse = model::TextUrl;

/// The response data for a story part's content.
pub type PartContentResponse = model::PartContent;

} // verus!
