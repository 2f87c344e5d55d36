//! The part-content record.

use vstd::prelude::*;

verus! {

/// Represents the content of a story part, as returned in structured form.
#[derive(Debug, Clone)]
pub struct PartContent {
    /// The full text content of the story part.
    pub text: Option<String>,
    /// A hash of the text content, likely for caching or integrity checks.
    pub text_hash: Option<String>,
}

} // verus!
