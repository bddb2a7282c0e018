//! The parameter builder whose URL generation percent-encodes every
//! parameter and that can look a post up by id, fixed or random.

use crate::encoding::{form_encode, form_encoded_chars};
use crate::link::link::Link;
use crate::random::random_index;
use crate::text::{
    dec_chars, suppress_tags, suppressed_tags, toggle_chars, toggle_str, u16_dec, usize_dec,
};
use vstd::prelude::*;
use vstd::string::*;

verus! {

/// The exclusive upper bound on a randomly drawn post id.
pub const MAX_RANDOM_ID: usize = 10900000;

/// One percent-encoded query parameter: the encoded name, `'='`, the
/// encoded value.
pub open spec fn spec_pair(k: Seq<char>, v: Seq<char>) -> Seq<char> {
    form_encoded_chars(k) + seq!['='] + form_encoded_chars(v)
}

/// Query settings for one search: the fixed route markers, the two tag
/// lists, the JSON-output flag, the result limit, the page cursor and the
/// optional direct post id.
///
/// After construction the limit always lies in `[0, 1000]`.
#[derive(Debug, PartialEq)]
pub struct R34Params<'a> {
    /// Fixed route marker, the `page` query parameter.
    pub p: &'static str,
    /// Fixed subject marker, the `s` query parameter.
    pub s: &'static str,
    /// Fixed query-mode marker, the `q` query parameter.
    pub q: &'static str,
    /// Tags every result must match, in insertion order.
    pub positive_tags: Vec<&'a str>,
    /// Tags no result may match; each is rendered with a `-` prefix.
    pub negative_tags: Vec<&'a str>,
    /// Whether the response is requested as JSON.
    pub json: bool,
    /// How many records the response may hold, at most 1000.
    pub limit: u16,
    /// Which block of results to return.
    pub page: u16,
    /// A direct post id; when set it is emitted alongside the tag
    /// parameters, and the API gives it priority.
    pub id: Option<usize>,
}

impl Default for R34Params<'_> {
    /// The route markers `dapi`, `post`, `index`, empty tag lists, JSON
    /// output on, limit 1, page 1 and no id.
    fn default() -> (r: Self)
        ensures
            r.p@ == "dapi"@,
            r.s@ == "post"@,
            r.q@ == "index"@,
            r.positive_tags@.len() == 0,
            r.negative_tags@.len() == 0,
            r.json == true,
            r.limit == 1,
            r.page == 1,
            r.id is None,
            r.wf(),
    {
        R34Params {
            p: "dapi",
            s: "post",
            q: "index",
            positive_tags: Vec::new(),
            negative_tags: Vec::new(),
            json: true,
            limit: 1,
            page: 1,
            id: None,
        }
    }
}

impl<'a> R34Params<'a> {
    /// The limit never leaves the protocol's range.
    pub open spec fn wf(&self) -> bool {
        self.limit <= 1000
    }

    /// The text of the request URL `url_generate` assembles: the fixed
    /// endpoint, then every parameter percent-encoded, in the canonical
    /// order `page`, `s`, `q`, `tags`, `json`, `limit`, `pid`, and `id`
    /// last when one is set.
    pub open spec fn url_chars(&self) -> Seq<char> {
        let head = "https://api.rule34.xxx/index.php?"@ + spec_pair("page"@, self.p@) + seq!['&']
            + spec_pair("s"@, self.s@) + seq!['&'] + spec_pair("q"@, self.q@) + seq!['&']
            + spec_pair(
            "tags"@,
            suppressed_tags(self.positive_tags.deep_view(), self.negative_tags.deep_view()),
        ) + seq!['&'] + spec_pair("json"@, toggle_chars(self.json)) + seq!['&'] + spec_pair(
            "limit"@,
            dec_chars(self.limit as int),
        ) + seq!['&'] + spec_pair("pid"@, dec_chars(self.page as int));
        match self.id {
            Some(i) => head + seq!['&'] + spec_pair("id"@, dec_chars(i as int)),
            None => head,
        }
    }

    /// A fresh builder with the fixed route markers.
    pub fn init() -> (r: Self)
        ensures
            r.p@ == "dapi"@,
            r.s@ == "post"@,
            r.q@ == "index"@,
            r.positive_tags@.len() == 0,
            r.negative_tags@.len() == 0,
            r.json == true,
            r.limit == 1,
            r.page == 1,
            r.id is None,
            r.wf(),
    {
        R34Params::default()
    }

    /// Appends to the positive tags; everything else is unchanged.
    pub fn positive_tags(self, tags: Vec<&'a str>) -> (r: Self)
        ensures
            r.positive_tags.deep_view() == self.positive_tags.deep_view() + tags.deep_view(),
            r.negative_tags == self.negative_tags,
            r.p@ == self.p@ && r.s@ == self.s@ && r.q@ == self.q@,
            r.json == self.json && r.limit == self.limit && r.page == self.page && r.id == self.id,
            self.wf() ==> r.wf(),
    {
        let ghost tv = tags.deep_view();
        let mut out = self;
        let mut tags = tags;
        out.positive_tags.append(&mut tags);
        proof {
            assert(out.positive_tags.deep_view() =~= self.positive_tags.deep_view() + tv);
        }
        out
    }

    /// Appends to the negative tags; everything else is unchanged.
    pub fn negative_tags(self, tags: Vec<&'a str>) -> (r: Self)
        ensures
            r.negative_tags.deep_view() == self.negative_tags.deep_view() + tags.deep_view(),
            r.positive_tags == self.positive_tags,
            r.p@ == self.p@ && r.s@ == self.s@ && r.q@ == self.q@,
            r.json == self.json && r.limit == self.limit && r.page == self.page && r.id == self.id,
            self.wf() ==> r.wf(),
    {
        let ghost tv = tags.deep_view();
        let mut out = self;
        let mut tags = tags;
        out.negative_tags.append(&mut tags);
        proof {
            assert(out.negative_tags.deep_view() =~= self.negative_tags.deep_view() + tv);
        }
        out
    }

    /// Sets the limit: a value of at most 1000 is kept exactly, anything
    /// above is clamped down to 1000. Everything else is unchanged. Warning the user about a
    /// clamped value is the caller's concern at the I/O edge.
    pub fn limit(self, limit: u16) -> (r: Self)
        ensures
            r.limit == if limit > 1000 {
                1000u16
            } else {
                limit
            },
            r.positive_tags == self.positive_tags,
            r.negative_tags == self.negative_tags,
            r.p@ == self.p@ && r.s@ == self.s@ && r.q@ == self.q@,
            r.json == self.json && r.page == self.page && r.id == self.id,
            r.wf(),
    {
        let mut out = self;
        if limit > 1000 {
            out.limit = 1000;
        } else {
            out.limit = limit;
        }
        out
    }

    /// Sets the page cursor, with no validation; everything else is
    /// unchanged.
    pub fn page(self, page: u16) -> (r: Self)
        ensures
            r.page == page,
            r.positive_tags == self.positive_tags,
            r.negative_tags == self.negative_tags,
            r.p@ == self.p@ && r.s@ == self.s@ && r.q@ == self.q@,
            r.json == self.json && r.limit == self.limit && r.id == self.id,
            self.wf() ==> r.wf(),
    {
        let mut out = self;
        out.page = page;
        out
    }

    /// Sets the direct post id; everything else is unchanged.
    pub fn id(self, id: usize) -> (r: Self)
        ensures
            r.id == Some(id),
            r.positive_tags == self.positive_tags,
            r.negative_tags == self.negative_tags,
            r.p@ == self.p@ && r.s@ == self.s@ && r.q@ == self.q@,
            r.json == self.json && r.limit == self.limit && r.page == self.page,
            self.wf() ==> r.wf(),
    {
        let mut out = self;
        out.id = Some(id);
        out
    }

    /// Sets a uniformly random post id below [`MAX_RANDOM_ID`], freshly
    /// drawn on every call; everything else is unchanged.
    pub fn gen_id(self) -> (r: Self)
        ensures
            match r.id {
                Some(i) => i < MAX_RANDOM_ID,
                None => false,
            },
            r.positive_tags == self.positive_tags,
            r.negative_tags == self.negative_tags,
            r.p@ == self.p@ && r.s@ == self.s@ && r.q@ == self.q@,
            r.json == self.json && r.limit == self.limit && r.page == self.page,
            self.wf() ==> r.wf(),
    {
        let mut out = self;
        out.id = Some(random_index(MAX_RANDOM_ID));
        out
    }

    /// Assembles the request URL from the current settings, exactly as
    /// [`R34Params::url_chars`] states it, with every parameter name and
    /// value percent-encoded.
    pub fn url_generate(&self) -> (r: Link)
        ensures
            r@ == self.url_chars(),
    {
        proof {
            reveal_strlit("&");
        }
        let mut url = String::new();
        url.append("https://api.rule34.xxx/index.php?");
        push_pair(&mut url, "page", self.p);
        url.append("&");
        push_pair(&mut url, "s", self.s);
        url.append("&");
        push_pair(&mut url, "q", self.q);
        url.append("&");
        let tags = suppress_tags(&self.positive_tags, &self.negative_tags);
        push_pair(&mut url, "tags", tags.as_str());
        url.append("&");
        push_pair(&mut url, "json", toggle_str(self.json));
        url.append("&");
        let limit = u16_dec(self.limit);
        push_pair(&mut url, "limit", limit.as_str());
        url.append("&");
        let page = u16_dec(self.page);
        push_pair(&mut url, "pid", page.as_str());
        if let Some(i) = self.id {
            url.append("&");
            let id = usize_dec(i);
            push_pair(&mut url, "id", id.as_str());
        }
        proof {
            assert(url@ =~= self.url_chars());
        }
        Link::init(url)
    }
}

/// The closing piece of the URL: the `id` parameter, when one is set.
spec fn url_tail_id(id: Option<usize>) -> Seq<char> {
    match id {
        Some(i) => seq!['&'] + spec_pair("id"@, dec_chars(i as int)),
        None => Seq::<char>::empty(),
    }
}

/// The URL from the `pid` parameter on: its marker, the encoded page, and
/// the optional id.
spec fn url_from_pid(page: u16, id: Option<usize>) -> Seq<char> {
    (seq!['&'] + form_encoded_chars("pid"@) + seq!['=']) + (form_encoded_chars(
        dec_chars(page as int),
    ) + url_tail_id(id))
}

/// The URL from the `limit` parameter on.
spec fn url_from_limit(limit: u16, page: u16, id: Option<usize>) -> Seq<char> {
    (seq!['&'] + form_encoded_chars("limit"@) + seq!['=']) + (form_encoded_chars(
        dec_chars(limit as int),
    ) + url_from_pid(page, id))
}

/// The URL from the `json` parameter on.
spec fn url_from_json(json: bool, limit: u16, page: u16, id: Option<usize>) -> Seq<char> {
    (seq!['&'] + form_encoded_chars("json"@) + seq!['=']) + (form_encoded_chars(
        toggle_chars(json),
    ) + url_from_limit(limit, page, id))
}

/// The URL up to and including `tags=`.
spec fn url_head(p: Seq<char>, s: Seq<char>, q: Seq<char>) -> Seq<char> {
    "https://api.rule34.xxx/index.php?"@ + spec_pair("page"@, p) + seq!['&'] + spec_pair("s"@, s)
        + seq!['&'] + spec_pair("q"@, q) + seq!['&'] + form_encoded_chars("tags"@) + seq!['=']
}

/// The flat URL text regrouped around the encoded tags value.
#[verifier::rlimit(50)]
#[verifier::spinoff_prover]
proof fn lemma_url_grouped(x: R34Params<'_>)
    ensures
        x.url_chars() == url_head(x.p@, x.s@, x.q@) + (form_encoded_chars(
            suppressed_tags(x.positive_tags.deep_view(), x.negative_tags.deep_view()),
        ) + url_from_json(x.json, x.limit, x.page, x.id)),
{
    assert(x.url_chars() =~= url_head(x.p@, x.s@, x.q@) + (form_encoded_chars(
        suppressed_tags(x.positive_tags.deep_view(), x.negative_tags.deep_view()),
    ) + url_from_json(x.json, x.limit, x.page, x.id)));
}

/// Reading a generated URL back: two parameter sets with the same route
/// markers that render to the same URL text carry the same tags value, the
/// same JSON flag, the same limit, the same page and the same optional id.
/// The query a URL carries thus determines the settings that produced it,
/// with no side condition: the percent-encoding keeps every `'&'` out of
/// the parameter values.
#[verifier::rlimit(50)]
#[verifier::spinoff_prover]
pub proof fn lemma_url_round_trip<'a, 'b>(a: R34Params<'a>, b: R34Params<'b>)
    requires
        a.p@ == b.p@,
        a.s@ == b.s@,
        a.q@ == b.q@,
        a.url_chars() == b.url_chars(),
    ensures
        suppressed_tags(a.positive_tags.deep_view(), a.negative_tags.deep_view())
            == suppressed_tags(b.positive_tags.deep_view(), b.negative_tags.deep_view()),
        a.json == b.json,
        a.limit == b.limit,
        a.page == b.page,
        a.id == b.id,
{
    let st1 = suppressed_tags(a.positive_tags.deep_view(), a.negative_tags.deep_view());
    let st2 = suppressed_tags(b.positive_tags.deep_view(), b.negative_tags.deep_view());
    let t1 = form_encoded_chars(st1);
    let t2 = form_encoded_chars(st2);
    let j1 = form_encoded_chars(toggle_chars(a.json));
    let j2 = form_encoded_chars(toggle_chars(b.json));
    let l1 = form_encoded_chars(dec_chars(a.limit as int));
    let l2 = form_encoded_chars(dec_chars(b.limit as int));
    let g1 = form_encoded_chars(dec_chars(a.page as int));
    let g2 = form_encoded_chars(dec_chars(b.page as int));
    lemma_url_grouped(a);
    lemma_url_grouped(b);
    crate::text::lemma_prefix_cancel(
        url_head(a.p@, a.s@, a.q@),
        t1 + url_from_json(a.json, a.limit, a.page, a.id),
        t2 + url_from_json(b.json, b.limit, b.page, b.id),
    );
    crate::encoding::lemma_form_encoded_chars_no_amp(st1);
    crate::encoding::lemma_form_encoded_chars_no_amp(st2);
    crate::text::lemma_amp_cancel(
        t1,
        url_from_json(a.json, a.limit, a.page, a.id),
        t2,
        url_from_json(b.json, b.limit, b.page, b.id),
    );
    crate::encoding::lemma_form_encoded_chars_injective(st1, st2);
    crate::text::lemma_prefix_cancel(
        seq!['&'] + form_encoded_chars("json"@) + seq!['='],
        j1 + url_from_limit(a.limit, a.page, a.id),
        j2 + url_from_limit(b.limit, b.page, b.id),
    );
    crate::encoding::lemma_form_encoded_chars_no_amp(toggle_chars(a.json));
    crate::encoding::lemma_form_encoded_chars_no_amp(toggle_chars(b.json));
    crate::text::lemma_amp_cancel(
        j1,
        url_from_limit(a.limit, a.page, a.id),
        j2,
        url_from_limit(b.limit, b.page, b.id),
    );
    crate::encoding::lemma_form_encoded_chars_injective(
        toggle_chars(a.json),
        toggle_chars(b.json),
    );
    assert(a.json == b.json) by {
        if a.json != b.json {
            assert(toggle_chars(true)[0] == '1');
            assert(toggle_chars(false)[0] == '0');
        }
    }
    crate::text::lemma_prefix_cancel(
        seq!['&'] + form_encoded_chars("limit"@) + seq!['='],
        l1 + url_from_pid(a.page, a.id),
        l2 + url_from_pid(b.page, b.id),
    );
    crate::encoding::lemma_form_encoded_chars_no_amp(dec_chars(a.limit as int));
    crate::encoding::lemma_form_encoded_chars_no_amp(dec_chars(b.limit as int));
    crate::text::lemma_amp_cancel(l1, url_from_pid(a.page, a.id), l2, url_from_pid(b.page, b.id));
    crate::encoding::lemma_form_encoded_chars_injective(
        dec_chars(a.limit as int),
        dec_chars(b.limit as int),
    );
    crate::text::lemma_dec_chars_injective(a.limit as int, b.limit as int);
    crate::text::lemma_prefix_cancel(
        seq!['&'] + form_encoded_chars("pid"@) + seq!['='],
        g1 + url_tail_id(a.id),
        g2 + url_tail_id(b.id),
    );
    crate::encoding::lemma_form_encoded_chars_no_amp(dec_chars(a.page as int));
    crate::encoding::lemma_form_encoded_chars_no_amp(dec_chars(b.page as int));
    let tail1 = url_tail_id(a.id);
    let tail2 = url_tail_id(b.id);
    match (a.id, b.id) {
        (Option::None, Option::None) => {
            assert(g1 + tail1 =~= g1);
            assert(g2 + tail2 =~= g2);
            crate::encoding::lemma_form_encoded_chars_injective(
                dec_chars(a.page as int),
                dec_chars(b.page as int),
            );
            crate::text::lemma_dec_chars_injective(a.page as int, b.page as int);
        },
        (Option::Some(i1), Option::Some(i2)) => {
            assert(tail1[0] == '&' && tail2[0] == '&');
            crate::text::lemma_amp_cancel(g1, tail1, g2, tail2);
            crate::encoding::lemma_form_encoded_chars_injective(
                dec_chars(a.page as int),
                dec_chars(b.page as int),
            );
            crate::text::lemma_dec_chars_injective(a.page as int, b.page as int);
            let mid_id = seq!['&'] + form_encoded_chars("id"@) + seq!['='];
            assert(tail1 =~= mid_id + form_encoded_chars(dec_chars(i1 as int)));
            assert(tail2 =~= mid_id + form_encoded_chars(dec_chars(i2 as int)));
            crate::text::lemma_prefix_cancel(
                mid_id,
                form_encoded_chars(dec_chars(i1 as int)),
                form_encoded_chars(dec_chars(i2 as int)),
            );
            crate::encoding::lemma_form_encoded_chars_injective(
                dec_chars(i1 as int),
                dec_chars(i2 as int),
            );
            crate::text::lemma_dec_chars_injective(i1 as int, i2 as int);
        },
        (Option::Some(_), Option::None) => {
            assert((g1 + tail1).len() == g1.len() + tail1.len());
            assert(tail1.len() >= 1);
            assert((g1 + tail1)[g1.len() as int] == tail1[0]);
            assert(tail1[0] == '&');
            assert((g2 + tail2)[g1.len() as int] == g2[g1.len() as int]);
            assert(false);
        },
        (Option::None, Option::Some(_)) => {
            assert((g2 + tail2).len() == g2.len() + tail2.len());
            assert(tail2.len() >= 1);
            assert((g2 + tail2)[g2.len() as int] == tail2[0]);
            assert(tail2[0] == '&');
            assert((g1 + tail1)[g2.len() as int] == g1[g2.len() as int]);
            assert(false);
        },
    }
}

/// Appends one percent-encoded `name=value` pair.
fn push_pair(url: &mut String, k: &str, v: &str)
    ensures
        final (url)@ == old(url)@ + spec_pair(k@, v@),
{
    proof {
        reveal_strlit("=");
    }
    let ghost u0 = url@;
    let ek = form_encode(k);
    url.append(ek.as_str());
    url.append("=");
    let ev = form_encode(v);
    url.append(ev.as_str());
    proof {
        assert(url@ =~= u0 + spec_pair(k@, v@));
    }
}

} // verus!
