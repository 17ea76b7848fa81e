//! Requests to the API and the builder that makes them.

use crate::error::Error;
use crate::item::ItemType;
use crate::request::filter::{Filter, FilterView};
use crate::request::pagination::Pagination;
use crate::request::sort::Sort;
use crate::text::{join, joined};
use vstd::prelude::*;
use vstd::string::*;

pub mod attributes;
pub mod filter;
pub mod order;
pub mod pagination;
pub mod sort;

verus! {

/// What can be written into the address of a request.
pub trait GetUrl {
    /// The text that this value stands for in the address of a request.
    spec fn url(&self) -> Seq<char>;

    /// Writes the value as it stands in the address of a request.
    fn get_url(&self) -> (text: String)
        ensures
            text@ == self.url(),
    ;
}

/// A request as a mathematical value: what is asked for, and how the answer
/// is to be filtered, sorted and cut into pages.
pub struct RequestView {
    pub item_type: ItemType,
    pub id: Option<Seq<char>>,
    pub secondary_item_type: Option<ItemType>,
    pub sort: Option<Sort>,
    pub filter: Option<FilterView>,
    pub pagination: Option<Pagination>,
}

/// The fragment that an optional part of a request gives to the query: the
/// text itself where the part is there and its text is not empty.
pub open spec fn fragment(text: Option<Seq<char>>) -> Seq<Seq<char>> {
    match text {
        Some(text) => if text.len() > 0 {
            seq![text]
        } else {
            Seq::empty()
        },
        None => Seq::empty(),
    }
}

impl RequestView {
    /// The request for all items of `item_type`.
    pub open spec fn new(item_type: ItemType) -> RequestView {
        RequestView {
            item_type,
            id: None,
            secondary_item_type: None,
            sort: None,
            filter: None,
            pagination: None,
        }
    }

    /// The same request for the one item with this id.
    pub open spec fn with_id(self, id: Seq<char>) -> RequestView {
        RequestView { id: Some(id), ..self }
    }

    /// The same request for the items of `item_type` that belong to the item
    /// with the id of the request.
    pub open spec fn with_secondary_item_type(self, item_type: ItemType) -> RequestView {
        RequestView { secondary_item_type: Some(item_type), ..self }
    }

    /// The same request with its items in the order of `sort`.
    pub open spec fn with_sort(self, sort: Sort) -> RequestView {
        RequestView { sort: Some(sort), ..self }
    }

    /// The same request for the items that meet `filter`.
    pub open spec fn with_filter(self, filter: FilterView) -> RequestView {
        RequestView { filter: Some(filter), ..self }
    }

    /// The same request for one page of its items.
    pub open spec fn with_pagination(self, pagination: Pagination) -> RequestView {
        RequestView { pagination: Some(pagination), ..self }
    }

    /// The type of the items that the answer holds: the secondary item type
    /// where there is one, else the item type.
    pub open spec fn effective_type(self) -> ItemType {
        match self.secondary_item_type {
            Some(item_type) => item_type,
            None => self.item_type,
        }
    }

    /// A related collection is asked for only under a given item.
    pub open spec fn has_parent_id(self) -> bool {
        self.secondary_item_type is Some ==> self.id is Some
    }

    /// The sort, if any, goes by an attribute of the items in the answer.
    pub open spec fn sort_fits(self) -> bool {
        self.sort matches Some(sort) ==> sort.item_type() == self.effective_type()
    }

    /// The filter, if any, is about an attribute of the items in the answer.
    pub open spec fn filter_fits(self) -> bool {
        self.filter matches Some(filter) ==> filter.item_type() == self.effective_type()
    }

    /// What a finished request has to meet.
    pub open spec fn valid(self) -> bool {
        &&& self.has_parent_id()
        &&& self.sort_fits()
        &&& self.filter_fits()
    }

    /// The filter, if any, is well formed. Every request and every builder
    /// is so, as every filter is.
    pub open spec fn wf(self) -> bool {
        self.filter matches Some(filter) ==> filter.wf()
    }

    /// The path: the item type, then the id and the secondary item type
    /// where they are there, each after a slash.
    pub open spec fn path(self) -> Seq<char> {
        self.item_type.url() + (match self.id {
            Some(id) => "/"@ + id,
            None => Seq::empty(),
        }) + (match self.secondary_item_type {
            Some(item_type) => "/"@ + item_type.url(),
            None => Seq::empty(),
        })
    }

    /// The fragments of the query: sort, filter, pagination, in this order,
    /// without those that are missing or empty.
    pub open spec fn fragments(self) -> Seq<Seq<char>>
        recommends
            self.wf(),
    {
        fragment(
            match self.sort {
                Some(sort) => Some(sort.url()),
                None => None,
            },
        ) + fragment(
            match self.filter {
                Some(filter) => Some(filter.url()),
                None => None,
            },
        ) + fragment(
            match self.pagination {
                Some(pagination) => Some(pagination.url()),
                None => None,
            },
        )
    }

    /// The address: the path and, where there is any fragment, a question
    /// mark and the fragments joined by `&`.
    pub open spec fn url(self) -> Seq<char>
        recommends
            self.wf(),
    {
        if self.fragments().len() == 0 {
            self.path()
        } else {
            self.path() + "?"@ + joined(self.fragments(), "&"@)
        }
    }

    /// The address has a query exactly where the request has a sort, a
    /// filter, or a pagination with a field that is not zero; without a
    /// query the address is the path.
    pub proof fn lemma_query(self)
        requires
            self.wf(),
        ensures
            self.fragments().len() == 0 <==> self.sort is None && self.filter is None && (
            self.pagination matches Some(pagination) ==> pagination.limit == 0 && pagination.offset
                == 0 && pagination.page == 0),
            self.fragments().len() == 0 <==> self.url() == self.path(),
    {
        if let Some(sort) = self.sort {
            reveal_strlit("sort=");
            assert(sort.url().len() > 0);
        }
        if let Some(filter) = self.filter {
            filter.attribute().lemma_url_not_empty();
            assert(filter.url().len() > 0);
        }
        if let Some(pagination) = self.pagination {
            pagination.lemma_url_empty();
        }
        if self.fragments().len() > 0 {
            reveal_strlit("?");
            assert(self.url().len() > self.path().len());
        }
    }

    /// A request of nothing but an item type meets every rule, and its
    /// address is the segment of the item type.
    pub proof fn lemma_new(item_type: ItemType)
        ensures
            RequestView::new(item_type).valid(),
            RequestView::new(item_type).wf(),
            RequestView::new(item_type).url() == item_type.url(),
    {
        let request = RequestView::new(item_type);
        assert(request.fragments() =~= Seq::<Seq<char>>::empty());
        assert(request.path() =~= item_type.url());
    }
}

/// What a request is made of, whether finished or still being built.
#[derive(Debug, PartialEq, Eq)]
struct Parts {
    item_type: ItemType,
    id: Option<String>,
    secondary_item_type: Option<ItemType>,
    sort: Option<Sort>,
    filter: Option<Filter>,
    pagination: Option<Pagination>,
}

impl View for Parts {
    type V = RequestView;

    closed spec fn view(&self) -> RequestView {
        RequestView {
            item_type: self.item_type,
            id: match self.id {
                Some(id) => Some(id@),
                None => None,
            },
            secondary_item_type: self.secondary_item_type,
            sort: self.sort,
            filter: match self.filter {
                Some(filter) => Some(filter@),
                None => None,
            },
            pagination: self.pagination,
        }
    }
}

impl Parts {
    fn new(item_type: ItemType) -> (parts: Parts)
        ensures
            parts@ == RequestView::new(item_type),
    {
        Parts {
            item_type,
            id: None,
            secondary_item_type: None,
            sort: None,
            filter: None,
            pagination: None,
        }
    }

    fn get_item_type(&self) -> (item_type: ItemType)
        ensures
            item_type == self@.effective_type(),
    {
        match self.secondary_item_type {
            Some(item_type) => item_type,
            None => self.item_type,
        }
    }
}

impl Clone for Parts {
    fn clone(&self) -> (copy: Self)
        ensures
            copy@ == self@,
    {
        Parts {
            item_type: self.item_type,
            id: match &self.id {
                Some(id) => Some(id.clone()),
                None => None,
            },
            secondary_item_type: self.secondary_item_type,
            sort: self.sort,
            filter: match &self.filter {
                Some(filter) => Some(filter.clone()),
                None => None,
            },
            pagination: self.pagination,
        }
    }
}

/// Collects the parts of a request in any order; `build` checks them and
/// gives the request.
#[derive(Debug, PartialEq, Eq)]
pub struct RequestBuilder {
    parts: Parts,
}

/// A finished request: its parts fit together, and they stay as they are.
#[derive(Debug, PartialEq, Eq)]
pub struct Request {
    parts: Parts,
}

impl View for RequestBuilder {
    type V = RequestView;

    closed spec fn view(&self) -> RequestView {
        self.parts@
    }
}

impl View for Request {
    type V = RequestView;

    closed spec fn view(&self) -> RequestView {
        self.parts@
    }
}

impl Clone for RequestBuilder {
    fn clone(&self) -> (copy: Self)
        ensures
            copy@ == self@,
    {
        proof {
            use_type_invariant(self);
        }
        Self { parts: self.parts.clone() }
    }
}

impl Clone for Request {
    fn clone(&self) -> (copy: Self)
        ensures
            copy@ == self@,
    {
        proof {
            use_type_invariant(self);
        }
        Self { parts: self.parts.clone() }
    }
}

impl RequestBuilder {
    #[verifier::type_invariant]
    spec fn inv(self) -> bool {
        self@.wf()
    }

    /// Starts a request for items of `item_type`.
    pub fn new(item_type: ItemType) -> (builder: Self)
        ensures
            builder@ == RequestView::new(item_type),
    {
        Self { parts: Parts::new(item_type) }
    }

    /// Asks for the one item with this id.
    pub fn id(self, id: String) -> (builder: Self)
        ensures
            builder@ == self@.with_id(id@),
    {
        proof {
            use_type_invariant(&self);
        }
        let mut parts = self.parts;
        parts.id = Some(id);
        Self { parts }
    }

    /// Asks for the items of `secondary_item_type` that belong to the item
    /// with the id of the request.
    pub fn secondary_item_type(self, secondary_item_type: ItemType) -> (builder: Self)
        ensures
            builder@ == self@.with_secondary_item_type(secondary_item_type),
    {
        proof {
            use_type_invariant(&self);
        }
        let mut parts = self.parts;
        parts.secondary_item_type = Some(secondary_item_type);
        Self { parts }
    }

    /// Asks for the items in the order of `sort`.
    pub fn sort(self, sort: Sort) -> (builder: Self)
        ensures
            builder@ == self@.with_sort(sort),
    {
        proof {
            use_type_invariant(&self);
        }
        let mut parts = self.parts;
        parts.sort = Some(sort);
        Self { parts }
    }

    /// Asks for the items that meet `filter`.
    pub fn filter(self, filter: Filter) -> (builder: Self)
        ensures
            builder@ == self@.with_filter(filter@),
    {
        if let Filter::Match(_, _, values) = &filter {
            proof {
                use_type_invariant(values);
            }
        }
        let mut parts = self.parts;
        parts.filter = Some(filter);
        Self { parts }
    }

    /// Asks for one page of the items.
    pub fn pagination(self, pagination: Pagination) -> (builder: Self)
        ensures
            builder@ == self@.with_pagination(pagination),
    {
        proof {
            use_type_invariant(&self);
        }
        let mut parts = self.parts;
        parts.pagination = Some(pagination);
        Self { parts }
    }

    /// Checks the parts against each other and gives the request. The first
    /// rule that is broken decides the error: a secondary item type without
    /// an id, then a sort by an attribute of another item type, then a
    /// filter on an attribute of another item type.
    pub fn build(self) -> (built: Result<Request, Error>)
        ensures
            built is Ok <==> self@.valid(),
            built is Ok ==> built->Ok_0@ == self@,
            built == Err::<Request, Error>(Error::MissingId) <==> !self@.has_parent_id(),
            built == Err::<Request, Error>(Error::SortTypeMismatch) <==> self@.has_parent_id()
                && !self@.sort_fits(),
            built == Err::<Request, Error>(Error::FilterTypeMismatch) <==> self@.has_parent_id()
                && self@.sort_fits() && !self@.filter_fits(),
    {
        proof {
            use_type_invariant(&self);
        }
        let item_type = self.parts.get_item_type();
        if self.parts.secondary_item_type.is_some() && self.parts.id.is_none() {
            return Err(Error::MissingId);
        }
        if let Some(sort) = &self.parts.sort {
            if sort.get_item_type() != item_type {
                return Err(Error::SortTypeMismatch);
            }
        }
        if let Some(filter) = &self.parts.filter {
            if filter.get_item_type() != item_type {
                return Err(Error::FilterTypeMismatch);
            }
        }
        Ok(Request { parts: self.parts })
    }
}

/// Adds `text` to `fragments` unless it is empty.
fn push_fragment(fragments: &mut Vec<String>, text: String)
    ensures
        final(fragments).deep_view() == old(fragments).deep_view() + fragment(Some(text@)),
{
    if !text.as_str().is_empty() {
        fragments.push(text);
    }
    assert(fragments.deep_view() =~= old(fragments).deep_view() + fragment(Some(text@)));
}

impl Request {
    #[verifier::type_invariant]
    spec fn inv(self) -> bool {
        self@.wf() && self@.valid()
    }

    /// The request for all items of `item_type`.
    pub fn new(item_type: ItemType) -> (request: Self)
        ensures
            request@ == RequestView::new(item_type),
    {
        Self { parts: Parts::new(item_type) }
    }

    /// The type of the items that the answer to this request holds.
    pub fn get_item_type(&self) -> (item_type: ItemType)
        ensures
            item_type == self@.effective_type(),
            self@.valid(),
            self@.wf(),
    {
        proof {
            use_type_invariant(self);
        }
        self.parts.get_item_type()
    }
}

impl GetUrl for Request {
    open spec fn url(&self) -> Seq<char> {
        self@.url()
    }

    fn get_url(&self) -> (text: String)
        ensures
            self@.valid(),
            self@.wf(),
    {
        proof {
            use_type_invariant(self);
        }
        let mut text = self.parts.item_type.get_url();
        if let Some(id) = &self.parts.id {
            text.append("/");
            text.append(id.as_str());
        }
        if let Some(item_type) = &self.parts.secondary_item_type {
            text.append("/");
            text.append(item_type.get_url().as_str());
        }
        assert(text@ =~= self@.path());
        let mut fragments: Vec<String> = Vec::new();
        assert(fragments.deep_view() =~= Seq::<Seq<char>>::empty());
        if let Some(sort) = &self.parts.sort {
            push_fragment(&mut fragments, sort.get_url());
        }
        if let Some(filter) = &self.parts.filter {
            push_fragment(&mut fragments, filter.get_url());
        }
        if let Some(pagination) = &self.parts.pagination {
            push_fragment(&mut fragments, pagination.get_url());
        }
        assert(fragments.deep_view() =~= self@.fragments());
        if fragments.len() > 0 {
            text.append("?");
            text.append(join(&fragments, "&").as_str());
        }
        text
    }
}

} // verus!
