//! Text helpers: trimming, decimal numbers and a caret in UTF-8 text.

use vstd::prelude::*;

verus! {

/// The characters with the Unicode property `White_Space`.
pub open spec fn is_white_space(c: char) -> bool {
    let code = c as u32;
    ||| 0x9 <= code <= 0xd
    ||| code == 0x20
    ||| code == 0x85
    ||| code == 0xa0
    ||| code == 0x1680
    ||| 0x2000 <= code <= 0x200a
    ||| code == 0x2028
    ||| code == 0x2029
    ||| code == 0x202f
    ||| code == 0x205f
    ||| code == 0x3000
}

/// `s` without the white space at its start.
pub open spec fn trim_start(s: Seq<char>) -> Seq<char>
    decreases s.len(),
{
    if s.len() > 0 && is_white_space(s.first()) {
        trim_start(s.drop_first())
    } else {
        s
    }
}

/// `s` without the white space at its end.
pub open spec fn trim_end(s: Seq<char>) -> Seq<char>
    decreases s.len(),
{
    if s.len() > 0 && is_white_space(s.last()) {
        trim_end(s.drop_last())
    } else {
        s
    }
}

/// `s` without the white space at either end.
pub open spec fn trimmed(s: Seq<char>) -> Seq<char> {
    trim_end(trim_start(s))
}

/// A text that may be missing, as characters.
pub open spec fn optional_text(s: Option<String>) -> Option<Seq<char>> {
    match s {
        Some(s) => Some(s@),
        None => None,
    }
}

/// Calls `str::trim`, whose documentation promises the string without its
/// leading and trailing white space, white space being what has the Unicode
/// property `White_Space`.
#[verifier::external_body]
pub(crate) fn trim_text(s: &str) -> (r: String)
    ensures
        r@ == trimmed(s@),
{
    s.trim().to_string()
}

/// Calls `char::to_string`, which gives the string of that one character.
#[verifier::external_body]
pub(crate) fn char_text(c: char) -> (r: String)
    ensures
        r@ == seq![c],
{
    c.to_string()
}

/// A trimmed text is empty exactly when the text is white space throughout.
pub proof fn lemma_trimmed_empty(s: Seq<char>)
    ensures
        trimmed(s).len() == 0 <==> forall|i: int| 0 <= i < s.len() ==> is_white_space(#[trigger] s[i]),
    decreases s.len(),
{
    if s.len() > 0 {
        if is_white_space(s.first()) {
            lemma_trimmed_empty(s.drop_first());
            assert(s.len() > 0 ==> forall|i: int|
                0 <= i < s.drop_first().len() ==> #[trigger] s.drop_first()[i] == s[i + 1]);
            assert(forall|i: int| 0 < i < s.len() ==> #[trigger] s[i] == s.drop_first()[i - 1]);
        } else {
            lemma_trim_end_keeps_first(s);
        }
    }
}

proof fn lemma_trim_end_keeps_first(s: Seq<char>)
    requires
        s.len() > 0,
        !is_white_space(s.first()),
    ensures
        trim_end(s).len() > 0,
    decreases s.len(),
{
    if is_white_space(s.last()) {
        lemma_trim_end_keeps_first(s.drop_last());
    }
}

/// The decimal digits of `n`, most significant first.
pub open spec fn decimal(n: nat) -> Seq<char>
    decreases n,
{
    if n < 10 {
        seq![digit(n)]
    } else {
        decimal(n / 10).push(digit(n % 10))
    }
}

/// The character that writes `d`.
pub open spec fn digit(d: nat) -> char {
    ('0' as u32 + d) as char
}

/// Writes `n` in decimal.
pub fn decimal_text(n: usize) -> (r: String)
    ensures
        r@ == decimal(n as nat),
    decreases n,
{
    let digits = "0123456789";
    proof {
        reveal_strlit("0123456789");
    }
    let low: usize = n % 10;
    let last = digits.substring_char(low, low + 1);
    if n < 10 {
        last.to_owned()
    } else {
        let mut r = decimal_text(n / 10);
        r.append(last);
        r
    }
}

/// The number of bytes that `s` takes.
pub open spec fn byte_len(s: Seq<char>) -> int {
    vstd::utf8::encode_utf8(s).len() as int
}

/// The number of bytes that `s` takes, at run time.
pub(crate) fn byte_count(s: &str) -> (n: usize)
    ensures
        n == byte_len(s@),
{
    s.as_bytes().len()
}

/// Whether a caret at byte `cursor` stands between two characters of `s`, or
/// at one of its ends.
pub open spec fn caret_ok(s: Seq<char>, cursor: int) -> bool {
    vstd::utf8::is_char_boundary(vstd::utf8::encode_utf8(s), cursor)
}

/// What stands in `s` before byte `cursor`.
pub open spec fn before_caret(s: Seq<char>, cursor: int) -> Seq<char> {
    vstd::utf8::decode_utf8(vstd::utf8::encode_utf8(s).subrange(0, cursor))
}

/// What stands in `s` from byte `cursor` on.
pub open spec fn after_caret(s: Seq<char>, cursor: int) -> Seq<char> {
    vstd::utf8::decode_utf8(
        vstd::utf8::encode_utf8(s).subrange(cursor, vstd::utf8::encode_utf8(s).len() as int),
    )
}

/// The encoding of a concatenation is the concatenation of the encodings.
pub proof fn lemma_encode_concat(a: Seq<char>, b: Seq<char>)
    ensures
        vstd::utf8::encode_utf8(a + b) == vstd::utf8::encode_utf8(a) + vstd::utf8::encode_utf8(b),
    decreases a.len(),
{
    if a.len() > 0 {
        assert((a + b).drop_first() =~= a.drop_first() + b);
        lemma_encode_concat(a.drop_first(), b);
        assert(vstd::utf8::encode_utf8(a + b) =~= vstd::utf8::encode_utf8(a)
            + vstd::utf8::encode_utf8(b));
    }
}

/// A caret put after `a` in `a + b` stands between `a` and `b`.
pub proof fn lemma_caret_between(a: Seq<char>, b: Seq<char>)
    ensures
        caret_ok(a + b, byte_len(a)),
        before_caret(a + b, byte_len(a)) == a,
        after_caret(a + b, byte_len(a)) == b,
        byte_len(a + b) == byte_len(a) + byte_len(b),
{
    let ea = vstd::utf8::encode_utf8(a);
    let eb = vstd::utf8::encode_utf8(b);
    let e = vstd::utf8::encode_utf8(a + b);
    lemma_encode_concat(a, b);
    vstd::utf8::encode_utf8_valid_utf8(a);
    vstd::utf8::encode_utf8_valid_utf8(b);
    vstd::utf8::encode_utf8_valid_utf8(a + b);
    assert(e.subrange(0, ea.len() as int) =~= ea);
    assert(e.subrange(ea.len() as int, e.len() as int) =~= eb);
    vstd::utf8::encode_utf8_decode_utf8(a);
    vstd::utf8::encode_utf8_decode_utf8(b);
    if eb.len() == 0 {
        vstd::utf8::is_char_boundary_start_end_of_seq(e);
    } else {
        vstd::utf8::is_char_boundary_iff_not_is_continuation_byte(e, ea.len() as int);
        vstd::utf8::is_char_boundary_start_end_of_seq(eb);
        vstd::utf8::is_char_boundary_iff_not_is_continuation_byte(eb, 0);
    }
}

/// A text is what stands before a caret in it and what stands after it.
pub proof fn lemma_caret_splits(s: Seq<char>, cursor: int)
    requires
        caret_ok(s, cursor),
    ensures
        before_caret(s, cursor) + after_caret(s, cursor) == s,
        byte_len(before_caret(s, cursor)) == cursor,
        0 <= cursor <= byte_len(s),
{
    let e = vstd::utf8::encode_utf8(s);
    vstd::utf8::encode_utf8_valid_utf8(s);
    vstd::utf8::encode_utf8_decode_utf8(s);
    vstd::utf8::decode_utf8_split(e, cursor);
    vstd::utf8::valid_utf8_split(e, cursor);
    vstd::utf8::decode_utf8_encode_utf8(e.subrange(0, cursor));
    lemma_boundary_in_range(e, cursor);
}

proof fn lemma_boundary_in_range(bytes: Seq<u8>, index: int)
    requires
        vstd::utf8::valid_utf8(bytes),
        vstd::utf8::is_char_boundary(bytes, index),
    ensures
        0 <= index <= bytes.len(),
{
}

/// Splits `s` at the caret.
pub(crate) fn split_at_caret(s: &str, cursor: usize) -> (r: (&str, &str))
    requires
        caret_ok(s@, cursor as int),
    ensures
        r.0@ == before_caret(s@, cursor as int),
        r.1@ == after_caret(s@, cursor as int),
{
    let r = s.split_at(cursor);
    proof {
        vstd::utf8::encode_utf8_decode_utf8(r.0@);
        vstd::utf8::encode_utf8_decode_utf8(r.1@);
    }
    r
}

} // verus!
