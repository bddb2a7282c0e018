//! A parameter builder that owns its tag strings and renders the request
//! URL as plain text.

use crate::link::link::plain_link_chars;
use crate::text::{str_refs, suppress_tags, suppressed_tags, toggle_str, u16_dec};
use vstd::prelude::*;
use vstd::string::*;

verus! {

/// Query settings for one search, with owned tag strings: the fixed route
/// markers, the two tag lists, the JSON-output flag, the result limit and
/// the page cursor.
///
/// After construction the limit always lies in `[0, 1000]`.
#[derive(Debug, PartialEq)]
pub struct Params<'a> {
    /// Fixed route marker, the `page` query parameter.
    pub p: &'a str,
    /// Fixed subject marker, the `s` query parameter.
    pub s: &'a str,
    /// Fixed query-mode marker, the `q` query parameter.
    pub q: &'a str,
    /// Tags every result must match, in insertion order.
    pub positive_tags: Vec<String>,
    /// Tags no result may match; each is rendered with a `-` prefix.
    pub negative_tags: Vec<String>,
    /// Whether the response is requested as JSON.
    pub json: bool,
    /// How many records the response may hold, at most 1000.
    pub limit: u16,
    /// Which block of results to return.
    pub page: u16,
}

impl Default for Params<'_> {
    /// The route markers `dapi`, `post`, `index`, empty tag lists, JSON
    /// output on, limit 1 and page 1.
    fn default() -> (r: Self)
        ensures
            r.p@ == "dapi"@,
            r.s@ == "post"@,
            r.q@ == "index"@,
            r.positive_tags@.len() == 0,
            r.negative_tags@.len() == 0,
            r.json == true,
            r.limit == 1,
            r.page == 1,
            r.wf(),
    {
        Params {
            p: "dapi",
            s: "post",
            q: "index",
            positive_tags: Vec::new(),
            negative_tags: Vec::new(),
            json: true,
            limit: 1,
            page: 1,
        }
    }
}

impl<'a> Params<'a> {
    /// The limit never leaves the protocol's range.
    pub open spec fn wf(&self) -> bool {
        self.limit <= 1000
    }

    /// The text of the request URL `build` renders.
    pub open spec fn link_chars(&self) -> Seq<char> {
        plain_link_chars(
            self.p@,
            self.s@,
            self.q@,
            self.positive_tags.deep_view(),
            self.negative_tags.deep_view(),
            self.json,
            self.limit,
            self.page,
        )
    }

    /// A fresh builder with the fixed route markers.
    pub fn init() -> (r: Self)
        ensures
            r.p@ == "dapi"@,
            r.s@ == "post"@,
            r.q@ == "index"@,
            r.positive_tags@.len() == 0,
            r.negative_tags@.len() == 0,
            r.json == true,
            r.limit == 1,
            r.page == 1,
            r.wf(),
    {
        Params::default()
    }

    /// Appends to the positive tags; everything else is unchanged.
    pub fn positive_tags(self, tags: Vec<String>) -> (r: Self)
        ensures
            r.positive_tags.deep_view() == self.positive_tags.deep_view() + tags.deep_view(),
            r.negative_tags == self.negative_tags,
            r.p@ == self.p@ && r.s@ == self.s@ && r.q@ == self.q@,
            r.json == self.json && r.limit == self.limit && r.page == self.page,
            self.wf() ==> r.wf(),
    {
        let ghost tv = tags.deep_view();
        let mut out = self;
        let mut tags = tags;
        out.positive_tags.append(&mut tags);
        proof {
            assert(out.positive_tags.deep_view() =~= self.positive_tags.deep_view() + tv);
        }
        out
    }

    /// Appends to the negative tags; everything else is unchanged.
    pub fn negative_tags(self, tags: Vec<String>) -> (r: Self)
        ensures
            r.negative_tags.deep_view() == self.negative_tags.deep_view() + tags.deep_view(),
            r.positive_tags == self.positive_tags,
            r.p@ == self.p@ && r.s@ == self.s@ && r.q@ == self.q@,
            r.json == self.json && r.limit == self.limit && r.page == self.page,
            self.wf() ==> r.wf(),
    {
        let ghost tv = tags.deep_view();
        let mut out = self;
        let mut tags = tags;
        out.negative_tags.append(&mut tags);
        proof {
            assert(out.negative_tags.deep_view() =~= self.negative_tags.deep_view() + tv);
        }
        out
    }

    /// Sets the limit: a value of at most 1000 is kept exactly, anything
    /// above is clamped down to 1000. Everything else is unchanged.
    pub fn limit(self, limit: u16) -> (r: Self)
        ensures
            r.limit == if limit > 1000 {
                1000u16
            } else {
                limit
            },
            r.positive_tags == self.positive_tags,
            r.negative_tags == self.negative_tags,
            r.p@ == self.p@ && r.s@ == self.s@ && r.q@ == self.q@,
            r.json == self.json && r.page == self.page,
            r.wf(),
    {
        let mut out = self;
        if limit > 1000 {
            out.limit = 1000;
        } else {
            out.limit = limit;
        }
        out
    }

    /// Sets the page cursor, with no validation; everything else is
    /// unchanged.
    pub fn page(self, page: u16) -> (r: Self)
        ensures
            r.page == page,
            r.positive_tags == self.positive_tags,
            r.negative_tags == self.negative_tags,
            r.p@ == self.p@ && r.s@ == self.s@ && r.q@ == self.q@,
            r.json == self.json && r.limit == self.limit,
            self.wf() ==> r.wf(),
    {
        let mut out = self;
        out.page = page;
        out
    }

    /// Combines the two tag lists into the single `tags` query value.
    pub fn tags_suppress(&self) -> (r: String)
        ensures
            r@ == suppressed_tags(self.positive_tags.deep_view(), self.negative_tags.deep_view()),
    {
        let pos = str_refs(&self.positive_tags);
        let neg = str_refs(&self.negative_tags);
        suppress_tags(&pos, &neg)
    }

    /// Renders the request URL from the current settings, exactly as
    /// [`plain_link_chars`] states it.
    pub fn build(&self) -> (r: String)
        ensures
            r@ == self.link_chars(),
    {
        let mut url = String::new();
        url.append("https://api.rule34.xxx/index.php?page=");
        url.append(self.p);
        url.append("&s=");
        url.append(self.s);
        url.append("&q=");
        url.append(self.q);
        url.append("&tags=");
        let tags = self.tags_suppress();
        url.append(tags.as_str());
        url.append("&json=");
        url.append(toggle_str(self.json));
        url.append("&limit=");
        let limit = u16_dec(self.limit);
        url.append(limit.as_str());
        url.append("&pid=");
        let page = u16_dec(self.page);
        url.append(page.as_str());
        proof {
            assert(url@ =~= self.link_chars());
        }
        url
    }
}

} // verus!
