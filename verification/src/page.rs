//! The pagination envelope: one page of a list-style response, as the
//! server returned it.

use vstd::prelude::*;

verus! {

/// Page metadata, decoded from the `meta` member of the response envelope
/// and preserved unmodified — nothing here is recomputed.
#[derive(Clone, Copy, Debug, PartialEq, Eq, Structural)]
pub struct PageMeta {
    pub page: u32,
    pub per_page: u8,
    pub total_count: u32,
    pub total_pages: u32,
}

/// One page of items: the metadata and the items in server-returned order.
/// The type represents exactly one page; fetching the next page is the
/// caller's responsibility.
pub struct Page<T> {
    pub meta: PageMeta,
    pub data: Vec<T>,
}

impl<T> Page<T> {
    /// Consuming access: every item, in server-returned order, without
    /// truncation.
    pub fn into_items(self) -> (items: Vec<T>)
        ensures
            items@ == self.data@,
    {
        self.data
    }

    /// Read-only access: every item, in server-returned order.
    pub fn items(&self) -> (items: &Vec<T>)
        ensures
            items@ == self.data@,
    {
        &self.data
    }
}

} // verus!
