//! The ways in which a request can be refused.

use vstd::prelude::*;

verus! {

/// Why a filter or a request could not be made, or why a lookup came back
/// empty.
#[derive(Debug, Clone, Copy, PartialEq, Eq, Structural)]
pub enum Error {
    /// A match filter was given no value to compare with.
    InvalidFilter,
    /// A related collection was asked for without the id of its parent item.
    MissingId,
    /// The sort attribute belongs to another item type than the one requested.
    SortTypeMismatch,
    /// The filter attribute belongs to another item type than the one requested.
    FilterTypeMismatch,
    /// A lookup of a single item found none.
    NotFound,
}

impl Error {
    /// The text that describes each error.
    pub open spec fn message_text(self) -> Seq<char> {
        match self {
            Error::InvalidFilter => "Invalid filter: no values"@,
            Error::MissingId => "Invalid secondary item type"@,
            Error::SortTypeMismatch => "Invalid sort"@,
            Error::FilterTypeMismatch => "Invalid filter"@,
            Error::NotFound => "No item found"@,
        }
    }

    /// A human-readable description of the error.
    pub fn message(&self) -> (text: String)
        ensures
            text@ == self.message_text(),
    {
        match self {
            Error::InvalidFilter => "Invalid filter: no values".to_owned(),
            Error::MissingId => "Invalid secondary item type".to_owned(),
            Error::SortTypeMismatch => "Invalid sort".to_owned(),
            Error::FilterTypeMismatch => "Invalid filter".to_owned(),
            Error::NotFound => "No item found".to_owned(),
        }
    }
}

} // verus!
