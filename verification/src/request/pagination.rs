//! Pagination: how many items to return, and from where.

use crate::text::{
    append_decimal, decimal, join, joined, lemma_decimal_digits, lemma_joined_last,
};
use vstd::prelude::*;
use vstd::string::*;

verus! {

/// The limit, the offset and the page of a request. A field that is zero is
/// left out of the address.
#[derive(Debug, Clone, Copy, PartialEq, Eq, Structural)]
pub struct Pagination {
    pub limit: u32,
    pub offset: u32,
    pub page: u32,
}

/// The fragment `key` followed by the numeral of `value`, or nothing where
/// `value` is zero.
pub open spec fn counted(key: Seq<char>, value: u32) -> Seq<Seq<char>> {
    if value == 0 {
        Seq::empty()
    } else {
        seq![key + decimal(value as nat)]
    }
}

/// Adds to `fragments` what `counted` gives for `key` and `value`.
fn push_counted(fragments: &mut Vec<String>, key: &str, value: u32)
    ensures
        final(fragments).deep_view() == old(fragments).deep_view() + counted(key@, value),
{
    if value != 0 {
        let mut fragment = key.to_owned();
        append_decimal(&mut fragment, value);
        fragments.push(fragment);
    }
    assert(fragments.deep_view() =~= old(fragments).deep_view() + counted(key@, value));
}

impl Pagination {
    /// The pagination with these three fields.
    pub fn new(limit: u32, offset: u32, page: u32) -> (pagination: Self)
        ensures
            pagination == (Pagination { limit, offset, page }),
    {
        Self { limit, offset, page }
    }

    /// One fragment for each field that is not zero: limit, offset, page,
    /// in this order.
    pub open spec fn fragments(self) -> Seq<Seq<char>> {
        counted("limit="@, self.limit) + counted("offset="@, self.offset) + counted(
            "page="@,
            self.page,
        )
    }

    /// The fragments joined by `&`; empty where all three fields are zero.
    pub open spec fn url(self) -> Seq<char> {
        joined(self.fragments(), "&"@)
    }

    /// The pagination is written as nothing exactly where all three fields
    /// are zero.
    pub proof fn lemma_url_empty(self)
        ensures
            self.url().len() == 0 <==> self.limit == 0 && self.offset == 0 && self.page == 0,
    {
        if self.limit == 0 && self.offset == 0 && self.page == 0 {
            assert(self.fragments() =~= Seq::<Seq<char>>::empty());
        } else {
            lemma_decimal_digits(self.limit as nat);
            lemma_decimal_digits(self.offset as nat);
            lemma_decimal_digits(self.page as nat);
            lemma_joined_last(self.fragments(), "&"@);
        }
    }

    /// Writes the pagination as it stands in the address of a request.
    pub fn get_url(&self) -> (text: String)
        ensures
            text@ == self.url(),
    {
        let mut fragments: Vec<String> = Vec::new();
        assert(fragments.deep_view() =~= Seq::<Seq<char>>::empty());
        push_counted(&mut fragments, "limit=", self.limit);
        push_counted(&mut fragments, "offset=", self.offset);
        push_counted(&mut fragments, "page=", self.page);
        assert(fragments.deep_view() =~= self.fragments());
        join(&fragments, "&")
    }
}

} // verus!
