//! The `text_url` record, which carries expiring URLs for a part's text.

use vstd::prelude::*;

verus! {

/// Represents a `text_url` object: URLs and tokens for accessing the actual
/// text content of a story part.
#[derive(Debug, Clone)]
pub struct TextUrl {
    /// The direct, often temporary and expiring, URL to the story part's
    /// text content.
    pub text: Option<String>,
    /// A token that can be used to obtain a new URL for the text content.
    pub refresh_token: Option<String>,
}

} // verus!
