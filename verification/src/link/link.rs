//! A request URL, assembled once and handed to the transport layer.

use vstd::prelude::*;
use vstd::string::*;

verus! {

/// A fully assembled request URL.
#[derive(Debug, PartialEq)]
pub struct Link {
    url: String,
}

impl View for Link {
    type V = Seq<char>;

    closed spec fn view(&self) -> Seq<char> {
        self.url@
    }
}

impl Link {
    /// Wraps an already assembled URL.
    pub fn init(url: String) -> (r: Self)
        ensures
            r@ == url@,
    {
        Link { url }
    }

    /// The URL's text.
    pub fn url(&self) -> (r: &str)
        ensures
            r@ == self@,
    {
        self.url.as_str()
    }
}

/// Builders that can assemble their settings into a request [`Link`].
pub trait MakeLink {
    fn make_link(&self) -> Link;
}

/// Reading a plain link back: two parameter sets with the same route
/// markers that render to the same URL text carry the same tags value, the
/// same JSON flag, the same limit and the same page, provided neither tags
/// value holds a `'&'`. The query fields a link carries thus determine the
/// settings that produced it.
#[verifier::rlimit(30)]
#[verifier::spinoff_prover]
pub proof fn lemma_plain_link_round_trip(
    p: Seq<char>,
    s: Seq<char>,
    q: Seq<char>,
    pos1: Seq<Seq<char>>,
    neg1: Seq<Seq<char>>,
    json1: bool,
    limit1: u16,
    page1: u16,
    pos2: Seq<Seq<char>>,
    neg2: Seq<Seq<char>>,
    json2: bool,
    limit2: u16,
    page2: u16,
)
    requires
        plain_link_chars(p, s, q, pos1, neg1, json1, limit1, page1) == plain_link_chars(
            p,
            s,
            q,
            pos2,
            neg2,
            json2,
            limit2,
            page2,
        ),
        forall|i: int|
            0 <= i < crate::text::suppressed_tags(pos1, neg1).len()
                ==> crate::text::suppressed_tags(pos1, neg1)[i] != '&',
        forall|i: int|
            0 <= i < crate::text::suppressed_tags(pos2, neg2).len()
                ==> crate::text::suppressed_tags(pos2, neg2)[i] != '&',
    ensures
        crate::text::suppressed_tags(pos1, neg1) == crate::text::suppressed_tags(pos2, neg2),
        json1 == json2,
        limit1 == limit2,
        page1 == page2,
{
    reveal_strlit("&json=");
    reveal_strlit("&pid=");
    let head = "https://api.rule34.xxx/index.php?page="@ + p + "&s="@ + s + "&q="@ + q
        + "&tags="@;
    let t1 = crate::text::suppressed_tags(pos1, neg1);
    let t2 = crate::text::suppressed_tags(pos2, neg2);
    let rest1 = "&json="@ + crate::text::toggle_chars(json1) + "&limit="@ + crate::text::dec_chars(
        limit1 as int,
    ) + "&pid="@ + crate::text::dec_chars(page1 as int);
    let rest2 = "&json="@ + crate::text::toggle_chars(json2) + "&limit="@ + crate::text::dec_chars(
        limit2 as int,
    ) + "&pid="@ + crate::text::dec_chars(page2 as int);
    assert(plain_link_chars(p, s, q, pos1, neg1, json1, limit1, page1) =~= head + (t1 + rest1));
    assert(plain_link_chars(p, s, q, pos2, neg2, json2, limit2, page2) =~= head + (t2 + rest2));
    crate::text::lemma_prefix_cancel(head, t1 + rest1, t2 + rest2);
    assert(rest1[0] == "&json="@[0]);
    assert(rest2[0] == "&json="@[0]);
    crate::text::lemma_amp_cancel(t1, rest1, t2, rest2);
    assert(rest1[6] == crate::text::toggle_chars(json1)[0]);
    assert(rest2[6] == crate::text::toggle_chars(json2)[0]);
    assert(json1 == json2);
    let mid = "&json="@ + crate::text::toggle_chars(json1) + "&limit="@;
    let tail1 = crate::text::dec_chars(limit1 as int) + ("&pid="@ + crate::text::dec_chars(
        page1 as int,
    ));
    let tail2 = crate::text::dec_chars(limit2 as int) + ("&pid="@ + crate::text::dec_chars(
        page2 as int,
    ));
    assert(rest1 =~= mid + tail1);
    assert(rest2 =~= mid + tail2);
    crate::text::lemma_prefix_cancel(mid, tail1, tail2);
    crate::text::lemma_dec_chars_no_amp(limit1 as int);
    crate::text::lemma_dec_chars_no_amp(limit2 as int);
    crate::text::lemma_amp_cancel(
        crate::text::dec_chars(limit1 as int),
        "&pid="@ + crate::text::dec_chars(page1 as int),
        crate::text::dec_chars(limit2 as int),
        "&pid="@ + crate::text::dec_chars(page2 as int),
    );
    crate::text::lemma_dec_chars_injective(limit1 as int, limit2 as int);
    crate::text::lemma_prefix_cancel(
        "&pid="@,
        crate::text::dec_chars(page1 as int),
        crate::text::dec_chars(page2 as int),
    );
    crate::text::lemma_dec_chars_injective(page1 as int, page2 as int);
}

/// The text of a plain (not percent-encoded) request URL: the fixed endpoint,
/// the route markers, the combined tags value, the JSON flag rendered as `1`
/// or `0`, and the decimal limit and page cursor, in the canonical parameter
/// order `page`, `s`, `q`, `tags`, `json`, `limit`, `pid`.
pub open spec fn plain_link_chars(
    p: Seq<char>,
    s: Seq<char>,
    q: Seq<char>,
    pos: Seq<Seq<char>>,
    neg: Seq<Seq<char>>,
    json: bool,
    limit: u16,
    page: u16,
) -> Seq<char> {
    "https://api.rule34.xxx/index.php?page="@ + p + "&s="@ + s + "&q="@ + q + "&tags="@
        + crate::text::suppressed_tags(pos, neg) + "&json="@ + crate::text::toggle_chars(json)
        + "&limit="@ + crate::text::dec_chars(limit as int) + "&pid="@ + crate::text::dec_chars(
        page as int,
    )
}

} // verus!
