//! The builder variant that assembles its request link through its own
//! trait rather than through [`crate::link::link::MakeLink`].

use crate::link::link::{plain_link_chars, Link};
use crate::rule34::rule::Rule34;
use crate::text::{suppress_tags, toggle_str, u16_dec};
use vstd::prelude::*;
use vstd::string::*;

verus! {

/// Query settings for one search: the fixed route markers, the two tag
/// lists, the JSON-output flag, the result limit and the page cursor.
///
/// After construction the limit always lies in `[0, 1000]`.
#[derive(Debug, PartialEq)]
pub struct Params<'a> {
    /// Fixed route marker, the `page` query parameter.
    pub p: &'a str,
    /// Fixed subject marker, the `s` query parameter.
    pub s: &'a str,
    /// Fixed query-mode marker, the `q` query parameter.
    pub q: &'a str,
    /// Tags every result must match, in insertion order.
    pub positive_tags: Vec<&'a str>,
    /// Tags no result may match; each is rendered with a `-` prefix.
    pub negative_tags: Vec<&'a str>,
    /// Whether the response is requested as JSON.
    pub json: bool,
    /// How many records the response may hold, at most 1000.
    pub limit: u16,
    /// Which block of results to return.
    pub page: u16,
}

impl Params<'_> {
    /// The limit never leaves the protocol's range.
    pub open spec fn wf(&self) -> bool {
        self.limit <= 1000
    }
}

impl Default for Params<'_> {
    /// The route markers `dapi`, `post`, `index`, empty tag lists, JSON
    /// output on, limit 1 and page 1.
    fn default() -> (r: Self)
        ensures
            r.p@ == "dapi"@,
            r.s@ == "post"@,
            r.q@ == "index"@,
            r.positive_tags@.len() == 0,
            r.negative_tags@.len() == 0,
            r.json == true,
            r.limit == 1,
            r.page == 1,
            r.wf(),
    {
        Params {
            p: "dapi",
            s: "post",
            q: "index",
            positive_tags: Vec::new(),
            negative_tags: Vec::new(),
            json: true,
            limit: 1,
            page: 1,
        }
    }
}

impl<'a> Rule34<'a> for Params<'a> {
    open spec fn spec_positive(&self) -> Seq<Seq<char>> {
        self.positive_tags.deep_view()
    }

    open spec fn spec_negative(&self) -> Seq<Seq<char>> {
        self.negative_tags.deep_view()
    }

    open spec fn spec_limit(&self) -> u16 {
        self.limit
    }

    open spec fn spec_page(&self) -> u16 {
        self.page
    }

    open spec fn spec_json(&self) -> bool {
        self.json
    }

    open spec fn spec_link(&self) -> Seq<char> {
        plain_link_chars(
            self.p@,
            self.s@,
            self.q@,
            self.positive_tags.deep_view(),
            self.negative_tags.deep_view(),
            self.json,
            self.limit,
            self.page,
        )
    }

    /// A fresh builder with the fixed route markers.
    fn init() -> (r: Self)
        ensures
            r.p@ == "dapi"@,
            r.s@ == "post"@,
            r.q@ == "index"@,
            r.wf(),
    {
        Params::default()
    }

    fn positive_tags(self, tags: Vec<&'a str>) -> (r: Self)
        ensures
            r.p@ == self.p@ && r.s@ == self.s@ && r.q@ == self.q@,
            self.wf() ==> r.wf(),
    {
        let ghost tv = tags.deep_view();
        let mut out = self;
        let mut tags = tags;
        out.positive_tags.append(&mut tags);
        proof {
            assert(out.positive_tags.deep_view() =~= self.positive_tags.deep_view() + tv);
        }
        out
    }

    fn negative_tags(self, tags: Vec<&'a str>) -> (r: Self)
        ensures
            r.p@ == self.p@ && r.s@ == self.s@ && r.q@ == self.q@,
            self.wf() ==> r.wf(),
    {
        let ghost tv = tags.deep_view();
        let mut out = self;
        let mut tags = tags;
        out.negative_tags.append(&mut tags);
        proof {
            assert(out.negative_tags.deep_view() =~= self.negative_tags.deep_view() + tv);
        }
        out
    }

    /// Keeps a limit of at most 1000 exactly and clamps anything above down
    /// to 1000, so the builder's limit invariant holds afterwards. Warning the user
    /// about a clamped value is the caller's concern at the I/O edge.
    fn limit(self, limit: u16) -> (r: Self)
        ensures
            r.p@ == self.p@ && r.s@ == self.s@ && r.q@ == self.q@,
            r.wf(),
    {
        let mut out = self;
        if limit > 1000 {
            out.limit = 1000;
        } else {
            out.limit = limit;
        }
        out
    }

    fn page(self, page: u16) -> (r: Self)
        ensures
            r.p@ == self.p@ && r.s@ == self.s@ && r.q@ == self.q@,
            self.wf() ==> r.wf(),
    {
        let mut out = self;
        out.page = page;
        out
    }

    /// Assembles the request URL from the current settings, exactly as
    /// [`plain_link_chars`] states it.
    fn build(&self) -> (r: Link) {
        let mut url = String::new();
        url.append("https://api.rule34.xxx/index.php?page=");
        url.append(self.p);
        url.append("&s=");
        url.append(self.s);
        url.append("&q=");
        url.append(self.q);
        url.append("&tags=");
        let tags = self.tags_suppress();
        url.append(tags.as_str());
        url.append("&json=");
        url.append(toggle_str(self.json));
        url.append("&limit=");
        let limit = u16_dec(self.limit);
        url.append(limit.as_str());
        url.append("&pid=");
        let page = u16_dec(self.page);
        url.append(page.as_str());
        proof {
            assert(url@ =~= self.spec_link());
        }
        Link::init(url)
    }

    fn tags_suppress(&self) -> (r: String) {
        suppress_tags(&self.positive_tags, &self.negative_tags)
    }

    fn json_convert(&self) -> (r: u8) {
        if self.json {
            1
        } else {
            0
        }
    }
}

} // verus!
