//! The builder operations every rule34 parameter type offers.

use crate::link::link::MakeLink;
use vstd::prelude::*;

verus! {

/// A parameter builder for the rule34 API: tag lists that grow by appending,
/// a result limit clamped to at most 1000, and a page cursor. Every method
/// consumes the builder and returns the updated one, so calls chain in any
/// order; [`MakeLink::make_link`] finalizes it.
pub trait Rule34<'a>: MakeLink + Sized {
    /// The positive tags collected so far, in insertion order.
    spec fn spec_positive(&self) -> Seq<Seq<char>>;

    /// The negative tags collected so far, in insertion order.
    spec fn spec_negative(&self) -> Seq<Seq<char>>;

    /// The result limit.
    spec fn spec_limit(&self) -> u16;

    /// The page cursor.
    spec fn spec_page(&self) -> u16;

    /// A fresh builder: no tags, limit 1, page 1.
    fn init() -> (r: Self)
        ensures
            r.spec_positive() == Seq::<Seq<char>>::empty(),
            r.spec_negative() == Seq::<Seq<char>>::empty(),
            r.spec_limit() == 1,
            r.spec_page() == 1,
    ;

    /// Appends to the positive tags; everything else is unchanged.
    fn positive_tags(self, tags: Vec<&'a str>) -> (r: Self)
        ensures
            r.spec_positive() == self.spec_positive() + tags.deep_view(),
            r.spec_negative() == self.spec_negative(),
            r.spec_limit() == self.spec_limit(),
            r.spec_page() == self.spec_page(),
    ;

    /// Appends to the negative tags; everything else is unchanged.
    fn negative_tags(self, tags: Vec<&'a str>) -> (r: Self)
        ensures
            r.spec_negative() == self.spec_negative() + tags.deep_view(),
            r.spec_positive() == self.spec_positive(),
            r.spec_limit() == self.spec_limit(),
            r.spec_page() == self.spec_page(),
    ;

    /// Sets the limit: a value of at most 1000 is kept exactly, anything
    /// above is clamped down to 1000. Everything else is unchanged.
    fn limit(self, limit: u16) -> (r: Self)
        ensures
            r.spec_limit() == if limit > 1000 {
                1000u16
            } else {
                limit
            },
            r.spec_positive() == self.spec_positive(),
            r.spec_negative() == self.spec_negative(),
            r.spec_page() == self.spec_page(),
    ;

    /// Sets the page cursor, with no validation; everything else is
    /// unchanged.
    fn page(self, page: u16) -> (r: Self)
        ensures
            r.spec_page() == page,
            r.spec_positive() == self.spec_positive(),
            r.spec_negative() == self.spec_negative(),
            r.spec_limit() == self.spec_limit(),
    ;
}

} // verus!
