//! The `application/x-www-form-urlencoded` serialization used for every
//! query-parameter name and value in a generated URL.

use vstd::prelude::*;
use vstd::string::*;

verus! {

/// Bytes the form-urlencoded serializer passes through unchanged: the ASCII
/// alphanumerics and `'*'`, `'-'`, `'.'`, `'_'`.
pub open spec fn unchanged_byte(b: u8) -> bool {
    ||| b == 0x2a  // '*'
    ||| b == 0x2d  // '-'
    ||| b == 0x2e  // '.'
    ||| (0x30 <= b && b <= 0x39)  // '0'..='9'
    ||| (0x41 <= b && b <= 0x5a)  // 'A'..='Z'
    ||| b == 0x5f  // '_'
    ||| (0x61 <= b && b <= 0x7a)  // 'a'..='z'
}

/// The character for one hexadecimal digit, upper case.
pub open spec fn hex_char(d: int) -> char {
    if d < 10 {
        crate::text::digit_char(d)
    } else if d == 10 {
        'A'
    } else if d == 11 {
        'B'
    } else if d == 12 {
        'C'
    } else if d == 13 {
        'D'
    } else if d == 14 {
        'E'
    } else {
        'F'
    }
}

/// The serialization of one byte: unchanged bytes stand for themselves, a
/// space becomes `'+'`, and every other byte becomes a `'%'` escape with two
/// upper-case hexadecimal digits.
pub open spec fn encoded_byte(b: u8) -> Seq<char> {
    if unchanged_byte(b) {
        seq![b as char]
    } else if b == 0x20 {
        seq!['+']
    } else {
        seq!['%', hex_char(b as int / 16), hex_char(b as int % 16)]
    }
}

/// The form-urlencoded serialization of a byte string.
pub open spec fn form_encoded(bs: Seq<u8>) -> Seq<char>
    decreases bs.len(),
{
    if bs.len() == 0 {
        Seq::empty()
    } else {
        encoded_byte(bs[0]) + form_encoded(bs.drop_first())
    }
}

/// The form-urlencoded serialization of a character string's UTF-8 bytes.
pub open spec fn form_encoded_chars(s: Seq<char>) -> Seq<char> {
    form_encoded(vstd::utf8::encode_utf8(s))
}

/// Two hexadecimal digits with the same character are the same digit.
proof fn lemma_hex_char_injective(a: int, b: int)
    requires
        0 <= a < 16,
        0 <= b < 16,
        hex_char(a) == hex_char(b),
    ensures
        a == b,
{
}

/// One byte's serialization is never empty and never holds the query
/// separator `'&'`.
pub proof fn lemma_encoded_byte_shape(b: u8)
    ensures
        encoded_byte(b).len() >= 1,
        forall|i: int| 0 <= i < encoded_byte(b).len() ==> #[trigger] encoded_byte(b)[i] != '&',
{
    if unchanged_byte(b) {
        assert((b as char) != '&');
    }
}

/// The serialized text never holds the query separator `'&'`.
pub proof fn lemma_form_encoded_no_amp(bs: Seq<u8>)
    ensures
        forall|i: int| 0 <= i < form_encoded(bs).len() ==> #[trigger] form_encoded(bs)[i] != '&',
    decreases bs.len(),
{
    if bs.len() > 0 {
        lemma_encoded_byte_shape(bs[0]);
        lemma_form_encoded_no_amp(bs.drop_first());
        let e = encoded_byte(bs[0]);
        let r = form_encoded(bs.drop_first());
        assert forall|i: int| 0 <= i < form_encoded(bs).len() implies #[trigger] form_encoded(
            bs,
        )[i] != '&' by {
            if i < e.len() {
                assert(form_encoded(bs)[i] == e[i]);
            } else {
                assert(form_encoded(bs)[i] == r[i - e.len()]);
            }
        }
    }
}

/// The encoded text of a character string never holds `'&'`.
pub proof fn lemma_form_encoded_chars_no_amp(s: Seq<char>)
    ensures
        forall|i: int|
            0 <= i < form_encoded_chars(s).len() ==> #[trigger] form_encoded_chars(s)[i] != '&',
{
    lemma_form_encoded_no_amp(vstd::utf8::encode_utf8(s));
}

/// Serialization is one to one over byte strings: the encoding is a prefix
/// code, so equal texts come from equal bytes.
pub proof fn lemma_form_encoded_injective(b1: Seq<u8>, b2: Seq<u8>)
    requires
        form_encoded(b1) == form_encoded(b2),
    ensures
        b1 == b2,
    decreases b1.len(),
{
    if b1.len() == 0 && b2.len() == 0 {
        assert(b1 =~= b2);
    } else if b1.len() == 0 {
        lemma_encoded_byte_shape(b2[0]);
        assert(form_encoded(b2).len() >= 1);
    } else if b2.len() == 0 {
        lemma_encoded_byte_shape(b1[0]);
        assert(form_encoded(b1).len() >= 1);
    } else {
        let e1 = encoded_byte(b1[0]);
        let e2 = encoded_byte(b2[0]);
        let r1 = form_encoded(b1.drop_first());
        let r2 = form_encoded(b2.drop_first());
        lemma_encoded_byte_shape(b1[0]);
        lemma_encoded_byte_shape(b2[0]);
        assert((e1 + r1)[0] == e1[0]);
        assert((e2 + r2)[0] == e2[0]);
        if unchanged_byte(b1[0]) {
            assert(e1[0] == b1[0] as char);
            assert((b1[0] as char) != '%' && (b1[0] as char) != '+');
            assert(unchanged_byte(b2[0]));
            assert(b1[0] == b2[0]);
        } else if b1[0] == 0x20 {
            assert(e1[0] == '+');
            assert(!unchanged_byte(b2[0]));
            assert(b2[0] == 0x20);
        } else {
            assert(e1[0] == '%');
            assert(!unchanged_byte(b2[0]) && b2[0] != 0x20);
            assert((e1 + r1)[1] == e1[1] && (e2 + r2)[1] == e2[1]);
            assert((e1 + r1)[2] == e1[2] && (e2 + r2)[2] == e2[2]);
            lemma_hex_char_injective(b1[0] as int / 16, b2[0] as int / 16);
            lemma_hex_char_injective(b1[0] as int % 16, b2[0] as int % 16);
            assert(b1[0] == b2[0]);
        }
        assert(e1 == e2);
        crate::text::lemma_prefix_cancel(e1, r1, r2);
        lemma_form_encoded_injective(b1.drop_first(), b2.drop_first());
        assert(b1 =~= seq![b1[0]] + b1.drop_first());
        assert(b2 =~= seq![b2[0]] + b2.drop_first());
        assert(b1 =~= b2);
    }
}

/// Serialization is one to one over character strings too, since UTF-8
/// encoding already is.
pub proof fn lemma_form_encoded_chars_injective(s1: Seq<char>, s2: Seq<char>)
    requires
        form_encoded_chars(s1) == form_encoded_chars(s2),
    ensures
        s1 == s2,
{
    lemma_form_encoded_injective(vstd::utf8::encode_utf8(s1), vstd::utf8::encode_utf8(s2));
    vstd::utf8::encode_utf8_decode_utf8(s1);
    vstd::utf8::encode_utf8_decode_utf8(s2);
}

/// Relies on url::form_urlencoded::byte_serialize: serializes the UTF-8
/// bytes of `s` as application/x-www-form-urlencoded data, keeping ASCII
/// alphanumerics and `*-._` as they are, turning a space into `'+'` and any
/// other byte into `'%'` plus two upper-case hexadecimal digits.
#[verifier::external_body]
pub fn form_encode(s: &str) -> (r: String)
    ensures
        r@ == form_encoded(s.spec_bytes()),
{
    url::form_urlencoded::byte_serialize(s.as_bytes()).collect()
}

} // verus!
