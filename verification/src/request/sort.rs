//! Sorting: an attribute to sort by and a direction.

use crate::item::attribute::Attribute;
use crate::item::ItemType;
use crate::request::GetUrl;
use vstd::prelude::*;
use vstd::string::*;

verus! {

/// The direction of a sort.
#[derive(Debug, Clone, Copy, PartialEq, Eq, Structural)]
pub enum SortOrder {
    Ascending,
    Descending,
}

/// What to sort the items of a request by, and in which direction.
#[derive(Debug, Clone, Copy, PartialEq, Eq, Structural)]
pub struct Sort {
    pub sort_type: SortOrder,
    pub sort_by: Attribute,
}

impl GetUrl for SortOrder {
    open spec fn url(&self) -> Seq<char> {
        match self {
            SortOrder::Ascending => "asc"@,
            SortOrder::Descending => "desc"@,
        }
    }

    fn get_url(&self) -> (text: String) {
        match self {
            SortOrder::Ascending => "asc",
            SortOrder::Descending => "desc",
        }.to_owned()
    }
}

impl Sort {
    /// The sort by `sort_by` in the direction of `sort_type`.
    pub fn new(sort_type: SortOrder, sort_by: Attribute) -> (sort: Self)
        ensures
            sort == (Sort { sort_type, sort_by }),
    {
        Self { sort_type, sort_by }
    }

    /// The item type whose attribute the sort goes by.
    pub open spec fn item_type(self) -> ItemType {
        self.sort_by.item_type()
    }

    /// The item type whose attribute the sort goes by.
    pub fn get_item_type(&self) -> (item_type: ItemType)
        ensures
            item_type == self.item_type(),
    {
        self.sort_by.get_item_type()
    }
}

impl GetUrl for Sort {
    /// `sort=`, the name of the attribute, a colon and the direction.
    open spec fn url(&self) -> Seq<char> {
        "sort="@ + self.sort_by.url() + ":"@ + self.sort_type.url()
    }

    fn get_url(&self) -> (text: String) {
        let mut text = "sort=".to_owned();
        text.append(self.sort_by.get_url().as_str());
        text.append(":");
        text.append(self.sort_type.get_url().as_str());
        text
    }
}

} // verus!
