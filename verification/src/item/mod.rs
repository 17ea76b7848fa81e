//! The kinds of item that the API serves, and the attributes of each kind.

use vstd::prelude::*;

pub mod attribute;

verus! {

/// The five collections of the API.
#[derive(Debug, Clone, Copy, PartialEq, Eq, Structural)]
pub enum ItemType {
    Book,
    Movie,
    Quote,
    Character,
    Chapter,
}

} // verus!
