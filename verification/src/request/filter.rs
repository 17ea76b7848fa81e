//! Filters: a comparison of an attribute with values, or a test whether the
//! attribute is there at all.

use crate::error::Error;
use crate::item::attribute::Attribute;
use crate::item::ItemType;
use crate::request::GetUrl;
use crate::text::{join, joined};
use vstd::prelude::*;
use vstd::string::*;

verus! {

/// How a match filter compares the attribute with its values.
#[derive(Debug, Clone, Copy, PartialEq, Eq, Structural)]
pub enum Operator {
    Eq,
    Ne,
    Gt,
    Lt,
    Gte,
    Lte,
}

/// The values that a match filter compares with: at least one, in the order
/// given. There is no way to make one without a value.
#[derive(Debug, PartialEq, Eq)]
pub struct Values {
    items: Vec<String>,
}

/// A condition on the items that a request returns.
#[derive(Debug, PartialEq, Eq)]
pub enum Filter {
    /// The attribute compares as the operator says with the values.
    Match(Attribute, Operator, Values),
    /// The attribute is there (`true`) or is missing (`false`).
    Exists(Attribute, bool),
}

/// A filter as a mathematical value: the values of a match are texts.
pub enum FilterView {
    Match(Attribute, Operator, Seq<Seq<char>>),
    Exists(Attribute, bool),
}

impl GetUrl for Operator {
    open spec fn url(&self) -> Seq<char> {
        match self {
            Operator::Eq => "="@,
            Operator::Ne => "!="@,
            Operator::Gt => ">"@,
            Operator::Lt => "<"@,
            Operator::Gte => ">="@,
            Operator::Lte => "<="@,
        }
    }

    fn get_url(&self) -> (text: String) {
        match self {
            Operator::Eq => "=",
            Operator::Ne => "!=",
            Operator::Gt => ">",
            Operator::Lt => "<",
            Operator::Gte => ">=",
            Operator::Lte => "<=",
        }.to_owned()
    }
}

impl FilterView {
    /// The attribute that the filter is about.
    pub open spec fn attribute(self) -> Attribute {
        match self {
            FilterView::Match(attribute, _, _) => attribute,
            FilterView::Exists(attribute, _) => attribute,
        }
    }

    /// The item type whose attribute the filter is about.
    pub open spec fn item_type(self) -> ItemType {
        self.attribute().item_type()
    }

    /// A match filter has at least one value. This holds of the view of
    /// every filter, since `Values` cannot be made empty.
    pub open spec fn wf(self) -> bool {
        self matches FilterView::Match(_, _, values) ==> values.len() > 0
    }

    /// A match is the name of the attribute, the operator and the values
    /// with commas between them, none of it escaped. A test for an attribute
    /// is its name, after a `!` where the attribute is to be missing. A match
    /// without values has no text: nothing is said of it.
    pub open spec fn url(self) -> Seq<char>
        recommends
            self.wf(),
    {
        match self {
            FilterView::Match(attribute, operator, values) => if values.len() > 0 {
                attribute.url() + operator.url() + joined(values, ","@)
            } else {
                arbitrary()
            },
            FilterView::Exists(attribute, present) => if present {
                attribute.url()
            } else {
                "!"@ + attribute.url()
            },
        }
    }
}

impl View for Values {
    type V = Seq<Seq<char>>;

    closed spec fn view(&self) -> Seq<Seq<char>> {
        self.items.deep_view()
    }
}

impl Values {
    /// There is at least one value.
    #[verifier::type_invariant]
    pub open spec fn inv(self) -> bool {
        self@.len() > 0
    }

    /// The given values, unless there is none.
    pub fn new(values: Vec<String>) -> (made: Result<Values, Error>)
        ensures
            made == Err::<Values, Error>(Error::InvalidFilter) <==> values@.len() == 0,
            made is Ok <==> values@.len() > 0,
            made matches Ok(made) ==> made@ == values.deep_view(),
    {
        if values.len() == 0 {
            Err(Error::InvalidFilter)
        } else {
            Ok(Values { items: values })
        }
    }

    /// The values as a vector, which is never empty.
    pub fn as_vec(&self) -> (items: &Vec<String>)
        ensures
            items.deep_view() == self@,
            items@.len() > 0,
    {
        proof {
            use_type_invariant(self);
        }
        &self.items
    }
}

impl Clone for Values {
    fn clone(&self) -> (copy: Self)
        ensures
            copy@ == self@,
    {
        proof {
            use_type_invariant(self);
        }
        let items = self.items.clone();
        assert(items.deep_view() =~= self.items.deep_view());
        Values { items }
    }
}

impl View for Filter {
    type V = FilterView;

    open spec fn view(&self) -> FilterView {
        match self {
            Filter::Match(attribute, operator, values) => FilterView::Match(
                *attribute,
                *operator,
                values@,
            ),
            Filter::Exists(attribute, present) => FilterView::Exists(*attribute, *present),
        }
    }
}

impl Clone for Filter {
    fn clone(&self) -> (copy: Self)
        ensures
            copy@ == self@,
    {
        match self {
            Filter::Match(attribute, operator, values) => Filter::Match(
                *attribute,
                *operator,
                values.clone(),
            ),
            Filter::Exists(attribute, present) => Filter::Exists(*attribute, *present),
        }
    }
}

impl Filter {
    /// A match filter on `attribute`, unless `values` is empty.
    pub fn new_match(attribute: Attribute, operator: Operator, values: Vec<String>) -> (made:
        Result<Filter, Error>)
        ensures
            made == Err::<Filter, Error>(Error::InvalidFilter) <==> values@.len() == 0,
            made is Ok <==> values@.len() > 0,
            made matches Ok(filter) ==> filter@ == FilterView::Match(
                attribute,
                operator,
                values.deep_view(),
            ) && filter@.wf(),
    {
        match Values::new(values) {
            Ok(values) => Ok(Filter::Match(attribute, operator, values)),
            Err(error) => Err(error),
        }
    }

    /// The item type whose attribute the filter is about.
    pub fn get_item_type(&self) -> (item_type: ItemType)
        ensures
            item_type == self@.item_type(),
            self@.wf(),
    {
        match self {
            Filter::Match(attribute, _, values) => {
                proof {
                    use_type_invariant(values);
                }
                attribute.get_item_type()
            },
            Filter::Exists(attribute, _) => attribute.get_item_type(),
        }
    }
}

impl GetUrl for Filter {
    open spec fn url(&self) -> Seq<char> {
        self@.url()
    }

    fn get_url(&self) -> (text: String)
        ensures
            self@.wf(),
    {
        match self {
            Filter::Match(attribute, operator, values) => {
                let mut text = attribute.get_url();
                text.append(operator.get_url().as_str());
                text.append(join(values.as_vec(), ",").as_str());
                text
            },
            Filter::Exists(attribute, present) => {
                let mut text = String::new();
                if !*present {
                    text.append("!");
                }
                text.append(attribute.get_url().as_str());
                assert(text@ =~= self@.url());
                text
            },
        }
    }
}

} // verus!
