//! The builder operations an alternate rule implementation offers: the
//! same tag, limit and page settings, plus a direct post id.

use vstd::prelude::*;

verus! {

/// A parameter builder for an imageboard-style API with direct id lookup.
/// Implementations take and return the builder by value, so calls chain.
pub trait Rule34<'a>: Sized {
    /// A fresh builder with the rule's defaults.
    fn init() -> Self;

    /// Appends to the positive tags.
    fn positive_tags(self, tags: Vec<&'a str>) -> Self;

    /// Appends to the negative tags.
    fn negative_tags(self, tags: Vec<&'a str>) -> Self;

    /// Sets the result limit, at most 1000.
    fn limit(self, limit: u16) -> Self;

    /// Sets the direct post id.
    fn id(self, id: usize) -> Self;

    /// Sets the page cursor.
    fn page(self, page: u16) -> Self;
}

} // verus!
