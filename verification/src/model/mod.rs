//! The data records that API responses decode to.
//!
//! Every field is optional: the remote API returns only the fields the
//! request selected, and a missing or malformed field is represented as an
//! absent value, not an error. The JSON collaborator fills these records;
//! the logic here only reads them.

use vstd::prelude::*;

use crate::error::WattpadError;

mod language;
mod part;
mod part_content;
mod part_reference;
mod part_stub;
mod story;
mod text_url;
mod user;
mod user_stub;

pub use language::Language;
pub use part::Part;
pub use part_content::PartContent;
pub use part_reference::PartReference;
pub use part_stub::PartStub;
pub use story::Story;
pub use text_url::TextUrl;
pub use user::User;
pub use user_stub::UserStub;

verus! {

/// `e` reports that the field named `name` was missing from a response
/// value, with the reason `context`.
pub open spec fn missing_field_error(e: WattpadError, name: Seq<char>, context: Seq<char>) -> bool {
    e matches WattpadError::MissingRequiredField { field, context: c } && field@ == name && c@
        == context
}

} // verus!
