//! The attributes by which items can be filtered and sorted: one enum per
//! item type, and one enum over them all.

use crate::item::ItemType;
use vstd::prelude::*;
use vstd::std_specs::convert::FromSpecImpl;

verus! {

/// An attribute of some item type. The outer variant says which type the
/// attribute belongs to, the inner one which field of that type it is.
#[derive(Debug, Clone, Copy, PartialEq, Eq, Structural)]
pub enum Attribute {
    Book(BookAttribute),
    Movie(MovieAttribute),
    Quote(QuoteAttribute),
    Character(CharacterAttribute),
    Chapter(ChapterAttribute),
}

#[derive(Debug, Clone, Copy, PartialEq, Eq, Structural)]
pub enum BookAttribute {
    Id,
    Name,
}

#[derive(Debug, Clone, Copy, PartialEq, Eq, Structural)]
pub enum MovieAttribute {
    Id,
    Name,
    RuntimeInMinutes,
    BudgetInMillions,
    BoxOfficeRevenueInMillions,
    AcademyAwardNominations,
    AcademyAwardWins,
    RottenTomatoesScore,
}

#[derive(Debug, Clone, Copy, PartialEq, Eq, Structural)]
pub enum QuoteAttribute {
    Id,
    Dialog,
    Movie,
    Character,
}

#[derive(Debug, Clone, Copy, PartialEq, Eq, Structural)]
pub enum CharacterAttribute {
    Id,
    Height,
    Gender,
    Birth,
    Spouse,
    Death,
    Realm,
    Hair,
    Name,
    WikiUrl,
}

#[derive(Debug, Clone, Copy, PartialEq, Eq, Structural)]
pub enum ChapterAttribute {
    Id,
    ChapterName,
    Book,
}

impl Attribute {
    /// The item type that has this attribute.
    pub open spec fn item_type(self) -> ItemType {
        match self {
            Attribute::Book(_) => ItemType::Book,
            Attribute::Movie(_) => ItemType::Movie,
            Attribute::Quote(_) => ItemType::Quote,
            Attribute::Character(_) => ItemType::Character,
            Attribute::Chapter(_) => ItemType::Chapter,
        }
    }

    /// The item type that has this attribute.
    pub fn get_item_type(&self) -> (item_type: ItemType)
        ensures
            item_type == self.item_type(),
    {
        match self {
            Attribute::Book(_) => ItemType::Book,
            Attribute::Movie(_) => ItemType::Movie,
            Attribute::Quote(_) => ItemType::Quote,
            Attribute::Character(_) => ItemType::Character,
            Attribute::Chapter(_) => ItemType::Chapter,
        }
    }

    /// An attribute belongs to the item type whose attribute enum it wraps,
    /// and to no other.
    pub proof fn lemma_item_type(self)
        ensures
            self is Book <==> self.item_type() == ItemType::Book,
            self is Movie <==> self.item_type() == ItemType::Movie,
            self is Quote <==> self.item_type() == ItemType::Quote,
            self is Character <==> self.item_type() == ItemType::Character,
            self is Chapter <==> self.item_type() == ItemType::Chapter,
    {
    }
}

impl From<Attribute> for ItemType {
    fn from(attribute: Attribute) -> (item_type: ItemType) {
        attribute.get_item_type()
    }
}

impl FromSpecImpl<Attribute> for ItemType {
    open spec fn obeys_from_spec() -> bool {
        true
    }

    open spec fn from_spec(attribute: Attribute) -> ItemType {
        attribute.item_type()
    }
}

} // verus!
