//! Verified building blocks for the strings the library emits: decimal
//! rendering of integers and space-joined tag lists.

use vstd::prelude::*;
use vstd::string::*;

verus! {

/// The character for one decimal digit.
pub open spec fn digit_char(d: int) -> char {
    if d == 0 {
        '0'
    } else if d == 1 {
        '1'
    } else if d == 2 {
        '2'
    } else if d == 3 {
        '3'
    } else if d == 4 {
        '4'
    } else if d == 5 {
        '5'
    } else if d == 6 {
        '6'
    } else if d == 7 {
        '7'
    } else if d == 8 {
        '8'
    } else {
        '9'
    }
}

/// Decimal form of a non-negative integer, most significant digit first,
/// without a sign and without leading zeros (a single `'0'` for zero).
pub open spec fn dec_chars(n: int) -> Seq<char>
    recommends
        n >= 0,
    decreases n,
{
    if n < 10 {
        seq![digit_char(n)]
    } else {
        dec_chars(n / 10).push(digit_char(n % 10))
    }
}

/// Two digits with the same character are the same digit.
proof fn lemma_digit_char_injective(a: int, b: int)
    requires
        0 <= a < 10,
        0 <= b < 10,
        digit_char(a) == digit_char(b),
    ensures
        a == b,
{
}

/// The decimal text is never empty.
pub proof fn lemma_dec_chars_len(n: int)
    ensures
        dec_chars(n).len() >= 1,
    decreases n,
{
    if n >= 10 {
        lemma_dec_chars_len(n / 10);
    }
}

/// Distinct numbers render to distinct decimal texts: the limit and page
/// read back out of a URL determine the values that produced them.
pub proof fn lemma_dec_chars_injective(a: int, b: int)
    requires
        a >= 0,
        b >= 0,
        dec_chars(a) == dec_chars(b),
    ensures
        a == b,
    decreases a,
{
    lemma_dec_chars_len(a / 10);
    lemma_dec_chars_len(b / 10);
    if a < 10 && b < 10 {
        assert(dec_chars(a) == seq![digit_char(a)]);
        assert(dec_chars(b) == seq![digit_char(b)]);
        assert(seq![digit_char(a)][0] == digit_char(a));
        assert(seq![digit_char(b)][0] == digit_char(b));
        lemma_digit_char_injective(a, b);
    } else if a < 10 && b >= 10 {
        assert(dec_chars(a).len() == 1);
        assert(dec_chars(b).len() >= 2);
    } else if a >= 10 && b < 10 {
        assert(dec_chars(a).len() >= 2);
        assert(dec_chars(b).len() == 1);
    } else {
        assert(dec_chars(a) == dec_chars(a / 10).push(digit_char(a % 10)));
        assert(dec_chars(b) == dec_chars(b / 10).push(digit_char(b % 10)));
        assert(dec_chars(a).last() == digit_char(a % 10));
        assert(dec_chars(b).last() == digit_char(b % 10));
        lemma_digit_char_injective(a % 10, b % 10);
        assert(dec_chars(a).drop_last() =~= dec_chars(a / 10));
        assert(dec_chars(b).drop_last() =~= dec_chars(b / 10));
        lemma_dec_chars_injective(a / 10, b / 10);
    }
}

/// Decimal text never holds a query separator.
pub proof fn lemma_dec_chars_no_amp(n: int)
    ensures
        forall|i: int| 0 <= i < dec_chars(n).len() ==> dec_chars(n)[i] != '&',
    decreases n,
{
    if n < 10 {
    } else {
        lemma_dec_chars_no_amp(n / 10);
        assert forall|i: int| 0 <= i < dec_chars(n).len() implies dec_chars(n)[i] != '&' by {
            if i < dec_chars(n).len() - 1 {
                assert(dec_chars(n)[i] == dec_chars(n / 10)[i]);
            } else {
                assert(dec_chars(n)[i] == digit_char(n % 10));
            }
        }
    }
}

/// Two decompositions of one string at a `'&'` marker coincide when
/// neither prefix holds a `'&'` and both suffixes start with one.
pub proof fn lemma_amp_cancel(x1: Seq<char>, y1: Seq<char>, x2: Seq<char>, y2: Seq<char>)
    requires
        x1 + y1 == x2 + y2,
        forall|i: int| 0 <= i < x1.len() ==> x1[i] != '&',
        forall|i: int| 0 <= i < x2.len() ==> x2[i] != '&',
        y1.len() > 0 && y1[0] == '&',
        y2.len() > 0 && y2[0] == '&',
    ensures
        x1 == x2,
        y1 == y2,
{
    assert((x1 + y1).len() == x1.len() + y1.len());
    assert((x2 + y2).len() == x2.len() + y2.len());
    if x1.len() < x2.len() {
        assert((x1 + y1)[x1.len() as int] == '&');
        assert((x2 + y2)[x1.len() as int] == x2[x1.len() as int]);
        assert(false);
    }
    if x2.len() < x1.len() {
        assert((x2 + y2)[x2.len() as int] == '&');
        assert((x1 + y1)[x2.len() as int] == x1[x2.len() as int]);
        assert(false);
    }
    assert forall|i: int| 0 <= i < x1.len() implies x1[i] == x2[i] by {
        assert((x1 + y1)[i] == x1[i]);
        assert((x2 + y2)[i] == x2[i]);
    }
    assert(x1 =~= x2);
    assert forall|i: int| 0 <= i < y1.len() implies y1[i] == y2[i] by {
        assert((x1 + y1)[x1.len() + i] == y1[i]);
        assert((x2 + y2)[x2.len() + i] == y2[i]);
    }
    assert(y1 =~= y2);
}

/// Concatenations with one common prefix agree past it.
pub proof fn lemma_prefix_cancel(a: Seq<char>, b1: Seq<char>, b2: Seq<char>)
    requires
        a + b1 == a + b2,
    ensures
        b1 == b2,
{
    assert((a + b1).len() == a.len() + b1.len());
    assert((a + b2).len() == a.len() + b2.len());
    assert(b1.len() == b2.len());
    assert forall|i: int| 0 <= i < b1.len() implies b1[i] == b2[i] by {
        assert((a + b1)[a.len() + i] == b1[i]);
        assert((a + b2)[a.len() + i] == b2[i]);
    }
    assert(b1 =~= b2);
}

fn digit_str(d: u64) -> (r: &'static str)
    requires
        d < 10,
    ensures
        r@ == seq![digit_char(d as int)],
{
    match d {
        0 => {
            proof {
                reveal_strlit("0");
                assert("0"@ =~= seq![digit_char(0)]);
            }
            "0"
        },
        1 => {
            proof {
                reveal_strlit("1");
                assert("1"@ =~= seq![digit_char(1)]);
            }
            "1"
        },
        2 => {
            proof {
                reveal_strlit("2");
                assert("2"@ =~= seq![digit_char(2)]);
            }
            "2"
        },
        3 => {
            proof {
                reveal_strlit("3");
                assert("3"@ =~= seq![digit_char(3)]);
            }
            "3"
        },
        4 => {
            proof {
                reveal_strlit("4");
                assert("4"@ =~= seq![digit_char(4)]);
            }
            "4"
        },
        5 => {
            proof {
                reveal_strlit("5");
                assert("5"@ =~= seq![digit_char(5)]);
            }
            "5"
        },
        6 => {
            proof {
                reveal_strlit("6");
                assert("6"@ =~= seq![digit_char(6)]);
            }
            "6"
        },
        7 => {
            proof {
                reveal_strlit("7");
                assert("7"@ =~= seq![digit_char(7)]);
            }
            "7"
        },
        8 => {
            proof {
                reveal_strlit("8");
                assert("8"@ =~= seq![digit_char(8)]);
            }
            "8"
        },
        _ => {
            proof {
                reveal_strlit("9");
                assert("9"@ =~= seq![digit_char(9)]);
            }
            "9"
        },
    }
}

/// Renders `n` in decimal.
pub fn u64_dec(n: u64) -> (r: String)
    ensures
        r@ == dec_chars(n as int),
    decreases n,
{
    if n < 10 {
        digit_str(n).to_owned()
    } else {
        let mut s = u64_dec(n / 10);
        s.append(digit_str(n % 10));
        proof {
            assert(s@ =~= dec_chars(n as int));
        }
        s
    }
}

/// Renders `n` in decimal.
pub fn u16_dec(n: u16) -> (r: String)
    ensures
        r@ == dec_chars(n as int),
{
    u64_dec(n as u64)
}

/// Renders `n` in decimal.
pub fn usize_dec(n: usize) -> (r: String)
    ensures
        r@ == dec_chars(n as int),
{
    u64_dec(n as u64)
}

/// Borrows every string of `v` in order, keeping the same character
/// sequences.
#[verifier::loop_isolation(false)]
pub fn str_refs<'x>(v: &'x Vec<String>) -> (r: Vec<&'x str>)
    ensures
        r.deep_view() == v.deep_view(),
{
    let mut out: Vec<&str> = Vec::new();
    let mut i: usize = 0;
    while i < v.len()
        invariant
            0 <= i <= v.len(),
            out.deep_view() == v.deep_view().take(i as int),
        decreases v.len() - i,
    {
        out.push(v[i].as_str());
        proof {
            assert(out.deep_view() =~= v.deep_view().take(i + 1));
        }
        i = i + 1;
    }
    proof {
        assert(v.deep_view().take(v.len() as int) =~= v.deep_view());
    }
    out
}

/// The one-character rendering of the JSON-output flag: `'1'` on, `'0'` off.
pub open spec fn toggle_chars(b: bool) -> Seq<char> {
    if b {
        seq!['1']
    } else {
        seq!['0']
    }
}

/// Renders the JSON-output flag as `"1"` or `"0"`.
pub fn toggle_str(b: bool) -> (r: &'static str)
    ensures
        r@ == toggle_chars(b),
{
    if b {
        proof {
            reveal_strlit("1");
            assert("1"@ =~= toggle_chars(true));
        }
        "1"
    } else {
        proof {
            reveal_strlit("0");
            assert("0"@ =~= toggle_chars(false));
        }
        "0"
    }
}

/// The tags joined by single spaces, in order, with no trailing separator.
pub open spec fn join_spaces(ts: Seq<Seq<char>>) -> Seq<char>
    decreases ts.len(),
{
    if ts.len() == 0 {
        Seq::empty()
    } else if ts.len() == 1 {
        ts[0]
    } else {
        join_spaces(ts.drop_last()) + seq![' '] + ts.last()
    }
}

/// The tags each prefixed with `'-'`, joined by single spaces.
pub open spec fn join_negated(ts: Seq<Seq<char>>) -> Seq<char>
    decreases ts.len(),
{
    if ts.len() == 0 {
        Seq::empty()
    } else if ts.len() == 1 {
        seq!['-'] + ts[0]
    } else {
        join_negated(ts.drop_last()) + seq![' '] + seq!['-'] + ts.last()
    }
}

/// The single `tags` query value: positive tags joined by spaces, one
/// separating space, then the negative tags each with a leading `'-'`,
/// joined by spaces. Both lists empty give the one-space artifact `" "`,
/// which the wire format requires kept as is.
pub open spec fn suppressed_tags(pos: Seq<Seq<char>>, neg: Seq<Seq<char>>) -> Seq<char> {
    join_spaces(pos) + seq![' '] + join_negated(neg)
}

/// Combines the two tag lists into the API's single `tags` query value.
#[verifier::loop_isolation(false)]
pub fn suppress_tags(pos: &Vec<&str>, neg: &Vec<&str>) -> (r: String)
    ensures
        r@ == suppressed_tags(pos.deep_view(), neg.deep_view()),
{
    proof {
        reveal_strlit(" ");
        reveal_strlit("-");
    }
    let ghost pv = pos.deep_view();
    let ghost nv = neg.deep_view();
    let mut out = String::new();
    let mut i: usize = 0;
    while i < pos.len()
        invariant
            0 <= i <= pos.len(),
            out@ == join_spaces(pv.take(i as int)),
        decreases pos.len() - i,
    {
        if i > 0 {
            out.append(" ");
        }
        out.append(pos[i]);
        proof {
            assert(pv.take(i + 1).drop_last() =~= pv.take(i as int));
            assert(pv.take(i + 1).last() == pv[i as int]);
            assert(out@ =~= join_spaces(pv.take(i + 1)));
        }
        i = i + 1;
    }
    proof {
        assert(pv.take(pos.len() as int) =~= pv);
    }
    out.append(" ");
    let mut j: usize = 0;
    while j < neg.len()
        invariant
            0 <= j <= neg.len(),
            out@ == join_spaces(pv) + seq![' '] + join_negated(nv.take(j as int)),
        decreases neg.len() - j,
    {
        if j > 0 {
            out.append(" ");
        }
        out.append("-");
        out.append(neg[j]);
        proof {
            assert(nv.take(j + 1).drop_last() =~= nv.take(j as int));
            assert(nv.take(j + 1).last() == nv[j as int]);
            assert(out@ =~= join_spaces(pv) + seq![' '] + join_negated(nv.take(j + 1)));
        }
        j = j + 1;
    }
    proof {
        assert(nv.take(neg.len() as int) =~= nv);
    }
    out
}

/// One character of a quoted string, escaped: quote, backslash, newline,
/// carriage return and tab get a backslash escape; anything else stands for
/// itself.
pub open spec fn esc_char(c: char) -> Seq<char> {
    if c == '"' {
        seq!['\\', '"']
    } else if c == '\\' {
        seq!['\\', '\\']
    } else if c == '\n' {
        seq!['\\', 'n']
    } else if c == '\r' {
        seq!['\\', 'r']
    } else if c == '\t' {
        seq!['\\', 't']
    } else {
        seq![c]
    }
}

/// The characters of `s`, each escaped as in [`esc_char`].
pub open spec fn escaped_chars(s: Seq<char>) -> Seq<char>
    decreases s.len(),
{
    if s.len() == 0 {
        Seq::empty()
    } else {
        escaped_chars(s.drop_last()) + esc_char(s.last())
    }
}

/// `s` escaped and wrapped in double quotes.
pub open spec fn quoted_chars(s: Seq<char>) -> Seq<char> {
    seq!['"'] + escaped_chars(s) + seq!['"']
}

/// Escapes `s` as in [`escaped_chars`].
#[verifier::loop_isolation(false)]
pub fn escape_str(s: &str) -> (r: String)
    ensures
        r@ == escaped_chars(s@),
{
    proof {
        reveal_strlit("\\\"");
        reveal_strlit("\\\\");
        reveal_strlit("\\n");
        reveal_strlit("\\r");
        reveal_strlit("\\t");
    }
    let n = s.unicode_len();
    let mut out = String::new();
    let mut i: usize = 0;
    while i < n
        invariant
            0 <= i <= n,
            n == s@.len(),
            out@ == escaped_chars(s@.take(i as int)),
        decreases n - i,
    {
        let c = s.get_char(i);
        if c == '"' {
            out.append("\\\"");
        } else if c == '\\' {
            out.append("\\\\");
        } else if c == '\n' {
            out.append("\\n");
        } else if c == '\r' {
            out.append("\\r");
        } else if c == '\t' {
            out.append("\\t");
        } else {
            out.append(s.substring_char(i, i + 1));
        }
        proof {
            assert(s@.take(i + 1).drop_last() =~= s@.take(i as int));
            assert(s@.take(i + 1).last() == s@[i as int]);
            assert(s@.subrange(i as int, i + 1) =~= seq![s@[i as int]]);
            assert(out@ =~= escaped_chars(s@.take(i + 1)));
        }
        i = i + 1;
    }
    proof {
        assert(s@.take(n as int) =~= s@);
    }
    out
}

/// Escapes `s` and wraps it in double quotes, as in [`quoted_chars`].
pub fn quote_str(s: &str) -> (r: String)
    ensures
        r@ == quoted_chars(s@),
{
    proof {
        reveal_strlit("\"");
    }
    let mut out = String::new();
    out.append("\"");
    let body = escape_str(s);
    out.append(body.as_str());
    out.append("\"");
    proof {
        assert(out@ =~= quoted_chars(s@));
    }
    out
}

/// One line of the pretty tag listing: four spaces of indent, the quoted
/// tag, a comma and a line break.
pub open spec fn pretty_item(t: Seq<char>) -> Seq<char> {
    "    "@ + quoted_chars(t) + ",\n"@
}

/// The lines of the pretty tag listing, in order.
pub open spec fn pretty_items(ts: Seq<Seq<char>>) -> Seq<char>
    decreases ts.len(),
{
    if ts.len() == 0 {
        Seq::empty()
    } else {
        pretty_items(ts.drop_last()) + pretty_item(ts.last())
    }
}

/// The pretty rendering of a tag list: `[]` when empty, otherwise the
/// quoted tags one per indented line between brackets.
pub open spec fn pretty_tags(ts: Seq<Seq<char>>) -> Seq<char> {
    if ts.len() == 0 {
        "[]"@
    } else {
        "[\n"@ + pretty_items(ts) + "]"@
    }
}

/// Renders a tag list as [`pretty_tags`] states it.
#[verifier::loop_isolation(false)]
pub fn render_tags(ts: &Vec<&str>) -> (r: String)
    ensures
        r@ == pretty_tags(ts.deep_view()),
{
    let ghost tv = ts.deep_view();
    if ts.len() == 0 {
        let mut out = String::new();
        out.append("[]");
        proof {
            assert(out@ =~= pretty_tags(tv));
        }
        return out;
    }
    let mut out = String::new();
    out.append("[\n");
    let mut i: usize = 0;
    while i < ts.len()
        invariant
            0 <= i <= ts.len(),
            out@ == "[\n"@ + pretty_items(tv.take(i as int)),
        decreases ts.len() - i,
    {
        out.append("    ");
        let q = quote_str(ts[i]);
        out.append(q.as_str());
        out.append(",\n");
        proof {
            assert(tv.take(i + 1).drop_last() =~= tv.take(i as int));
            assert(tv.take(i + 1).last() == tv[i as int]);
            assert(out@ =~= "[\n"@ + pretty_items(tv.take(i + 1)));
        }
        i = i + 1;
    }
    out.append("]");
    proof {
        assert(tv.take(ts.len() as int) =~= tv);
        assert(out@ =~= pretty_tags(tv));
    }
    out
}

/// The descriptive line for one record: its id, the pretty listing of its
/// tag tokens, and its raw picture URL.
pub open spec fn detail_chars(id: u64, tags: Seq<Seq<char>>, url: Seq<char>) -> Seq<char> {
    "id: "@ + dec_chars(id as int) + ", tags: "@ + pretty_tags(tags) + ", url: "@ + url
}

/// Renders one record's descriptive line, as [`detail_chars`] states it.
pub fn render_detail(id: u64, tags: &Vec<&str>, url: &str) -> (r: String)
    ensures
        r@ == detail_chars(id, tags.deep_view(), url@),
{
    let mut out = String::new();
    out.append("id: ");
    let ds = u64_dec(id);
    out.append(ds.as_str());
    out.append(", tags: ");
    let ts = render_tags(tags);
    out.append(ts.as_str());
    out.append(", url: ");
    out.append(url);
    proof {
        assert(out@ =~= detail_chars(id, tags.deep_view(), url@));
    }
    out
}

/// The descriptive line for one record whose tags are a single string: its
/// id, the quoted tag string, and its raw picture URL.
pub open spec fn detail_chars_single(id: u64, tags: Seq<char>, url: Seq<char>) -> Seq<char> {
    "id: "@ + dec_chars(id as int) + ", tags: "@ + quoted_chars(tags) + ", url: "@ + url
}

/// Renders one record's descriptive line, as [`detail_chars_single`]
/// states it.
pub fn render_detail_single(id: u64, tags: &str, url: &str) -> (r: String)
    ensures
        r@ == detail_chars_single(id, tags@, url@),
{
    let mut out = String::new();
    out.append("id: ");
    let ds = u64_dec(id);
    out.append(ds.as_str());
    out.append(", tags: ");
    let ts = quote_str(tags);
    out.append(ts.as_str());
    out.append(", url: ");
    out.append(url);
    proof {
        assert(out@ =~= detail_chars_single(id, tags@, url@));
    }
    out
}

/// Splitting on single spaces: the empty string yields one empty token, a
/// leading space opens a new empty token, and any other leading character
/// extends the first token.
pub open spec fn split_spaces_spec(s: Seq<char>) -> Seq<Seq<char>>
    decreases s.len(),
{
    if s.len() == 0 {
        seq![Seq::<char>::empty()]
    } else if s[0] == ' ' {
        seq![Seq::<char>::empty()] + split_spaces_spec(s.drop_first())
    } else {
        let r = split_spaces_spec(s.drop_first());
        seq![seq![s[0]] + r[0]] + r.drop_first()
    }
}

/// A string without spaces is its own single token.
pub proof fn lemma_split_no_space(s: Seq<char>)
    requires
        forall|i: int| 0 <= i < s.len() ==> s[i] != ' ',
    ensures
        split_spaces_spec(s) == seq![s],
    decreases s.len(),
{
    if s.len() == 0 {
        assert(split_spaces_spec(s) =~~= seq![s]);
    } else {
        lemma_split_no_space(s.drop_first());
        assert(seq![s[0]] + s.drop_first() =~= s);
        assert(split_spaces_spec(s) =~~= seq![s]);
    }
}

/// Splitting at the first space: a space-free prefix becomes one token and
/// the rest splits on its own.
pub proof fn lemma_split_at_space(a: Seq<char>, b: Seq<char>)
    requires
        forall|i: int| 0 <= i < a.len() ==> a[i] != ' ',
    ensures
        split_spaces_spec(a + seq![' '] + b) == seq![a] + split_spaces_spec(b),
    decreases a.len(),
{
    let s = a + seq![' '] + b;
    if a.len() == 0 {
        assert(s[0] == ' ');
        assert(s.drop_first() =~= b);
        assert(seq![a] =~~= seq![Seq::<char>::empty()]);
        assert(split_spaces_spec(s) =~~= seq![a] + split_spaces_spec(b));
    } else {
        lemma_split_at_space(a.drop_first(), b);
        assert(s.drop_first() =~= a.drop_first() + seq![' '] + b);
        assert(s[0] != ' ');
        let r = split_spaces_spec(s.drop_first());
        assert(r == seq![a.drop_first()] + split_spaces_spec(b));
        assert(seq![s[0]] + r[0] =~= a);
        assert(r.drop_first() =~= split_spaces_spec(b));
        assert(split_spaces_spec(s) =~~= seq![a] + split_spaces_spec(b));
    }
}

/// Splits `s` into its single-space-separated tokens, in order.
#[verifier::loop_isolation(false)]
pub fn split_spaces<'x>(s: &'x str) -> (r: Vec<&'x str>)
    ensures
        r.deep_view() == split_spaces_spec(s@),
{
    let n = s.unicode_len();
    let mut out: Vec<&str> = Vec::new();
    let mut start: usize = 0;
    let mut pos: usize = 0;
    proof {
        assert(s@.subrange(0, n as int) =~= s@);
    }
    while pos < n
        invariant
            0 <= start <= pos <= n,
            n == s@.len(),
            split_spaces_spec(s@) == out.deep_view() + split_spaces_spec(
                s@.subrange(start as int, n as int),
            ),
            forall|k: int| start <= k < pos ==> s@[k] != ' ',
        decreases n - pos,
    {
        let c = s.get_char(pos);
        if c == ' ' {
            let token = s.substring_char(start, pos);
            out.push(token);
            proof {
                let a = s@.subrange(start as int, pos as int);
                let b = s@.subrange(pos + 1, n as int);
                assert(s@.subrange(start as int, n as int) =~= a + seq![' '] + b);
                lemma_split_at_space(a, b);
                assert(out.deep_view() =~= out.deep_view().drop_last().push(token@));
                assert(out.deep_view().drop_last() + (seq![a] + split_spaces_spec(b))
                    =~= out.deep_view() + split_spaces_spec(b));
            }
            start = pos + 1;
        }
        pos = pos + 1;
    }
    let token = s.substring_char(start, n);
    out.push(token);
    proof {
        let a = s@.subrange(start as int, n as int);
        lemma_split_no_space(a);
        assert(out.deep_view() =~= out.deep_view().drop_last().push(token@));
        assert(out.deep_view().drop_last() + seq![a] =~= out.deep_view());
    }
    out
}

} // verus!
