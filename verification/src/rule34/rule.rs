//! The builder operations, link assembly included.

use crate::link::link::Link;
use crate::text::suppressed_tags;
use vstd::prelude::*;

verus! {

/// A parameter builder for the rule34 API that assembles its own request
/// link: tag lists that grow by appending, a result limit clamped to at most
/// 1000, a page cursor and the JSON-output flag.
pub trait Rule34<'a>: Sized {
    /// The positive tags collected so far, in insertion order.
    spec fn spec_positive(&self) -> Seq<Seq<char>>;

    /// The negative tags collected so far, in insertion order.
    spec fn spec_negative(&self) -> Seq<Seq<char>>;

    /// The result limit.
    spec fn spec_limit(&self) -> u16;

    /// The page cursor.
    spec fn spec_page(&self) -> u16;

    /// The JSON-output flag.
    spec fn spec_json(&self) -> bool;

    /// The text of the request URL `build` assembles.
    spec fn spec_link(&self) -> Seq<char>;

    /// A fresh builder: no tags, limit 1, page 1, JSON output on.
    fn init() -> (r: Self)
        ensures
            r.spec_positive() == Seq::<Seq<char>>::empty(),
            r.spec_negative() == Seq::<Seq<char>>::empty(),
            r.spec_limit() == 1,
            r.spec_page() == 1,
            r.spec_json() == true,
    ;

    /// Appends to the positive tags; everything else is unchanged.
    fn positive_tags(self, tags: Vec<&'a str>) -> (r: Self)
        ensures
            r.spec_positive() == self.spec_positive() + tags.deep_view(),
            r.spec_negative() == self.spec_negative(),
            r.spec_limit() == self.spec_limit(),
            r.spec_page() == self.spec_page(),
            r.spec_json() == self.spec_json(),
    ;

    /// Appends to the negative tags; everything else is unchanged.
    fn negative_tags(self, tags: Vec<&'a str>) -> (r: Self)
        ensures
            r.spec_negative() == self.spec_negative() + tags.deep_view(),
            r.spec_positive() == self.spec_positive(),
            r.spec_limit() == self.spec_limit(),
            r.spec_page() == self.spec_page(),
            r.spec_json() == self.spec_json(),
    ;

    /// Sets the limit: a value of at most 1000 is kept exactly, anything
    /// above is clamped down to 1000. Everything else is unchanged.
    fn limit(self, limit: u16) -> (r: Self)
        ensures
            r.spec_limit() == if limit > 1000 {
                1000u16
            } else {
                limit
            },
            r.spec_positive() == self.spec_positive(),
            r.spec_negative() == self.spec_negative(),
            r.spec_page() == self.spec_page(),
            r.spec_json() == self.spec_json(),
    ;

    /// Sets the page cursor, with no validation; everything else is
    /// unchanged.
    fn page(self, page: u16) -> (r: Self)
        ensures
            r.spec_page() == page,
            r.spec_positive() == self.spec_positive(),
            r.spec_negative() == self.spec_negative(),
            r.spec_limit() == self.spec_limit(),
            r.spec_json() == self.spec_json(),
    ;

    /// Assembles the request link from the current settings.
    fn build(&self) -> (r: Link)
        ensures
            r@ == self.spec_link(),
    ;

    /// Combines the two tag lists into the single `tags` query value.
    fn tags_suppress(&self) -> (r: String)
        ensures
            r@ == suppressed_tags(self.spec_positive(), self.spec_negative()),
    ;

    /// Renders the JSON-output flag as the wire format's `1` or `0`.
    fn json_convert(&self) -> (r: u8)
        ensures
            r == if self.spec_json() {
                1u8
            } else {
                0u8
            },
    ;
}

} // verus!
