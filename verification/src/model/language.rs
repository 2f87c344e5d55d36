//! The language record.

use vstd::prelude::*;

verus! {

/// Represents a language object.
#[derive(Debug, Clone)]
pub struct Language {
    /// The unique numerical identifier of the language.
    pub id: Option<u64>,
    /// The full name of the language (e.g., "English").
    pub name: Option<String>,
}

} // verus!
