//! Rules for the answers of the API that do not depend on how they were
//! fetched or decoded.

use crate::error::Error;
use vstd::prelude::*;

verus! {

/// The item that a lookup by id found: the last of the items in the answer,
/// or `NotFound` where the answer holds none.
pub fn single_item<T>(items: Vec<T>) -> (item: Result<T, Error>)
    ensures
        item == Err::<T, Error>(Error::NotFound) <==> items@.len() == 0,
        item == Ok::<T, Error>(items@.last()) <==> items@.len() > 0,
{
    let mut items = items;
    match items.pop() {
        Some(item) => Ok(item),
        None => Err(Error::NotFound),
    }
}

} // verus!
