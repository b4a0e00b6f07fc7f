use vstd::prelude::*;
use vstd::string::{StrSliceExecFns, StringSliceAdditionalSpecFns};
use vstd::utf8::{decode_utf8, encode_utf8, is_ascii_chars, is_char_boundary};

verus! {

broadcast use vstd::utf8::group_utf8_lib;

// ---------------------------------------------------------------------------
// White space and trimming
// ---------------------------------------------------------------------------

/// The Unicode `White_Space` property, which `char::is_whitespace` and
/// `str::trim` go by.
pub open spec fn is_white_space(c: char) -> bool {
    let u = c as u32;
    ||| 0x09 <= u <= 0x0d
    ||| u == 0x20
    ||| u == 0x85
    ||| u == 0xa0
    ||| u == 0x1680
    ||| 0x2000 <= u <= 0x200a
    ||| u == 0x2028
    ||| u == 0x2029
    ||| u == 0x202f
    ||| u == 0x205f
    ||| u == 0x3000
}

/// `s` without its leading white space.
pub open spec fn trim_start(s: Seq<char>) -> Seq<char>
    decreases s.len(),
{
    if s.len() > 0 && is_white_space(s[0]) {
        trim_start(s.drop_first())
    } else {
        s
    }
}

/// `s` without its trailing white space.
pub open spec fn trim_end(s: Seq<char>) -> Seq<char>
    decreases s.len(),
{
    if s.len() > 0 && is_white_space(s.last()) {
        trim_end(s.drop_last())
    } else {
        s
    }
}

/// `s` without leading and trailing white space, as `str::trim` gives it.
pub open spec fn trimmed(s: Seq<char>) -> Seq<char> {
    trim_end(trim_start(s))
}

/// Whether `c` is white space, as `char::is_whitespace` decides it.
pub fn white_space(c: char) -> (res: bool)
    ensures
        res == is_white_space(c),
{
    let u = c as u32;
    (0x09 <= u && u <= 0x0d) || u == 0x20 || u == 0x85 || u == 0xa0 || u == 0x1680 || (0x2000
        <= u && u <= 0x200a) || u == 0x2028 || u == 0x2029 || u == 0x202f || u == 0x205f || u
        == 0x3000
}

/// `s` with leading and trailing white space removed.
pub fn trim(s: &str) -> (res: String)
    ensures
        res@ == trimmed(s@),
{
    let n = s.unicode_len();
    let mut start: usize = 0;
    assert(s@.subrange(0, n as int) =~= s@);
    while start < n && white_space(s.get_char(start))
        invariant
            n == s@.len(),
            0 <= start <= n,
            trim_start(s@) == trim_start(s@.subrange(start as int, n as int)),
        decreases n - start,
    {
        assert(s@.subrange(start as int, n as int).drop_first() =~= s@.subrange(
            start + 1,
            n as int,
        ));
        start = start + 1;
    }
    assert(trim_start(s@) == s@.subrange(start as int, n as int));
    let ghost front = s@.subrange(start as int, n as int);
    let mut end: usize = n;
    while end > start && white_space(s.get_char(end - 1))
        invariant
            n == s@.len(),
            0 <= start <= end <= n,
            front == s@.subrange(start as int, n as int),
            trim_end(front) == trim_end(s@.subrange(start as int, end as int)),
        decreases end,
    {
        assert(s@.subrange(start as int, end as int).drop_last() =~= s@.subrange(
            start as int,
            end - 1,
        ));
        end = end - 1;
    }
    String::from_str(s.substring_char(start, end))
}

proof fn lemma_trim_start_edge(s: Seq<char>)
    ensures
        trim_start(s).len() > 0 ==> !is_white_space(trim_start(s)[0]),
        trim_start(s).len() <= s.len(),
        trim_start(s) == s.subrange(s.len() - trim_start(s).len(), s.len() as int),
        forall|k: int| 0 <= k < s.len() - trim_start(s).len() ==> is_white_space(#[trigger] s[k]),
    decreases s.len(),
{
    if s.len() > 0 && is_white_space(s[0]) {
        lemma_trim_start_edge(s.drop_first());
        let t = trim_start(s.drop_first());
        assert(s.drop_first().subrange(s.len() - 1 - t.len(), s.len() - 1) =~= s.subrange(
            s.len() - t.len(),
            s.len() as int,
        ));
        assert forall|k: int| 0 <= k < s.len() - t.len() implies is_white_space(#[trigger] s[k]) by {
            if k > 0 {
                assert(s[k] == s.drop_first()[k - 1]);
            }
        }
    } else {
        assert(s.subrange(0, s.len() as int) =~= s);
    }
}

proof fn lemma_trim_end_edge(s: Seq<char>)
    ensures
        trim_end(s).len() > 0 ==> !is_white_space(trim_end(s).last()),
        trim_end(s).len() <= s.len(),
        trim_end(s) == s.subrange(0, trim_end(s).len() as int),
        forall|k: int| trim_end(s).len() <= k < s.len() ==> is_white_space(#[trigger] s[k]),
    decreases s.len(),
{
    if s.len() > 0 && is_white_space(s.last()) {
        lemma_trim_end_edge(s.drop_last());
        let t = trim_end(s.drop_last());
        assert(s.drop_last().subrange(0, t.len() as int) =~= s.subrange(0, t.len() as int));
        assert forall|k: int| t.len() <= k < s.len() implies is_white_space(#[trigger] s[k]) by {
            if k < s.len() - 1 {
                assert(s[k] == s.drop_last()[k]);
            }
        }
    } else {
        assert(s.subrange(0, s.len() as int) =~= s);
    }
}

/// A trimmed text has no white space at either end, so trimming it again
/// changes nothing: `trim` is idempotent.
pub proof fn lemma_trim_idempotent(s: Seq<char>)
    ensures
        trimmed(trimmed(s)) == trimmed(s),
        trimmed(s).len() > 0 ==> !is_white_space(trimmed(s)[0]) && !is_white_space(
            trimmed(s).last(),
        ),
{
    let a = trim_start(s);
    lemma_trim_start_edge(s);
    lemma_trim_end_edge(a);
    let t = trim_end(a);
    if t.len() > 0 {
        assert(t[0] == a[0]);
    }
    assert(trim_start(t) == t);
    assert(trim_end(t) == t);
}

/// White space is exactly the Unicode `White_Space` characters: the ASCII
/// tab, line feed, vertical tab, form feed, carriage return and space, and
/// the listed characters above ASCII.  In particular no printable ASCII
/// character (letters, digits, punctuation) is white space.
pub proof fn lemma_white_space_chars(c: char)
    ensures
        0x21 <= (c as u32) <= 0x7e ==> !is_white_space(c),
        (c as u32) < 0x09 ==> !is_white_space(c),
        0x0e <= (c as u32) < 0x20 ==> !is_white_space(c),
        0x7f <= (c as u32) < 0x85 ==> !is_white_space(c),
        is_white_space(' '),
        is_white_space('\t'),
        is_white_space('\n'),
        is_white_space('\r'),
        is_white_space('\u{a0}'),
        is_white_space('\u{3000}'),
        !is_white_space('0'),
        !is_white_space('9'),
        !is_white_space('a'),
        !is_white_space('Z'),
        !is_white_space('\u{200b}'),
{
}

/// `trim` removes white space from both ends and nothing else: its result
/// is a run of `s` whose removed prefix and suffix are all white space, and
/// which neither begins nor ends with white space.
pub proof fn lemma_trim_removes_only_white_space(s: Seq<char>)
    ensures
        exists|i: int, j: int|
            0 <= i <= j <= s.len() && trimmed(s) == s.subrange(i, j) && (forall|k: int|
                0 <= k < i ==> is_white_space(#[trigger] s[k])) && (forall|k: int|
                j <= k < s.len() ==> is_white_space(#[trigger] s[k])),
        trimmed(s).len() > 0 ==> !is_white_space(trimmed(s)[0]) && !is_white_space(
            trimmed(s).last(),
        ),
{
    lemma_trim_start_edge(s);
    let a = trim_start(s);
    let i = s.len() - a.len();
    lemma_trim_end_edge(a);
    let t = trim_end(a);
    let j = i + t.len();
    assert(t =~= s.subrange(i, j));
    assert forall|k: int| j <= k < s.len() implies is_white_space(#[trigger] s[k]) by {
        assert(s[k] == a[k - i]);
    }
    lemma_trim_idempotent(s);
}

/// A text that begins and ends with a printable ASCII character (a letter,
/// digit or punctuation mark) is left as it is by `trim`; a title such as
/// `Windows 11` keeps its digits.
pub proof fn lemma_trim_keeps_unpadded(s: Seq<char>)
    requires
        s.len() > 0,
        0x21 <= (s[0] as u32) <= 0x7e,
        0x21 <= (s.last() as u32) <= 0x7e,
    ensures
        trimmed(s) == s,
{
    lemma_white_space_chars(s[0]);
    lemma_white_space_chars(s.last());
}

// ---------------------------------------------------------------------------
// Byte ranges
// ---------------------------------------------------------------------------

/// Whether `start..end` is a byte range of the UTF-8 encoding of `s` that
/// `str` slicing accepts: in bounds, ordered, and on character boundaries.
pub open spec fn valid_byte_range(s: Seq<char>, start: int, end: int) -> bool {
    &&& 0 <= start <= end <= encode_utf8(s).len()
    &&& is_char_boundary(encode_utf8(s), start)
    &&& is_char_boundary(encode_utf8(s), end)
}

/// The characters that the bytes `start..end` of the UTF-8 encoding of `s`
/// encode.
pub open spec fn byte_slice(s: Seq<char>, start: int, end: int) -> Seq<char> {
    decode_utf8(encode_utf8(s).subrange(start, end))
}

proof fn lemma_ascii_boundary(text: Seq<char>, a: int)
    requires
        is_ascii_chars(text),
        0 <= a <= text.len(),
    ensures
        encode_utf8(text).len() == text.len(),
        is_char_boundary(encode_utf8(text), a),
{
    let bytes = encode_utf8(text);
    vstd::utf8::is_ascii_chars_encode_utf8(text);
    if a == text.len() {
        vstd::utf8::is_char_boundary_start_end_of_seq(bytes);
    } else {
        assert(text[a] as u8 == bytes[a]);
        vstd::utf8::is_ascii_chars_nat_bound(text);
        vstd::utf8::is_char_boundary_iff_not_is_continuation_byte(bytes, a);
    }
}

/// For an ASCII text, where every character is one byte, every range of
/// positions is a byte range that slicing accepts, and slicing by bytes gives
/// exactly the characters at those positions.
pub proof fn lemma_byte_slice_ascii(text: Seq<char>, start: int, end: int)
    requires
        is_ascii_chars(text),
        0 <= start <= end <= text.len(),
    ensures
        valid_byte_range(text, start, end),
        byte_slice(text, start, end) == text.subrange(start, end),
{
    lemma_ascii_boundary(text, start);
    lemma_ascii_boundary(text, end);
    let bytes = encode_utf8(text);
    let sub = text.subrange(start, end);
    assert(is_ascii_chars(sub));
    vstd::utf8::is_ascii_chars_encode_utf8(text);
    vstd::utf8::is_ascii_chars_encode_utf8(sub);
    assert(encode_utf8(sub) =~= bytes.subrange(start, end)) by {
        assert forall|i: int| 0 <= i < sub.len() implies encode_utf8(sub)[i] == bytes.subrange(
            start,
            end,
        )[i] by {
            assert(sub[i] as u8 == encode_utf8(sub)[i]);
            assert(text[start + i] as u8 == bytes[start + i]);
        }
    }
    vstd::utf8::encode_utf8_decode_utf8(sub);
}

/// `&s[start..end]`, the bytes `start..end` of `s`.
pub fn slice_bytes(s: &str, start: usize, end: usize) -> (res: &str)
    requires
        valid_byte_range(s@, start as int, end as int),
    ensures
        res@ == byte_slice(s@, start as int, end as int),
{
    let ghost bytes = encode_utf8(s@);
    assert(s.spec_bytes() == bytes);
    let (_, rest) = s.split_at(start);
    let ghost rest_bytes = bytes.subrange(start as int, bytes.len() as int);
    assert(rest.spec_bytes() == rest_bytes);
    assert(is_char_boundary(rest_bytes, end - start)) by {
        vstd::utf8::valid_utf8_split(bytes, start as int);
        if end == bytes.len() {
            vstd::utf8::is_char_boundary_start_end_of_seq(rest_bytes);
        } else if end > start {
            assert(rest_bytes[end - start] == bytes[end as int]);
            vstd::utf8::is_char_boundary_iff_not_is_continuation_byte(bytes, end as int);
            vstd::utf8::is_char_boundary_iff_not_is_continuation_byte(
                rest_bytes,
                end - start,
            );
        }
    }
    let (mid, _) = rest.split_at(end - start);
    assert(mid.spec_bytes() =~= bytes.subrange(start as int, end as int));
    assert(decode_utf8(encode_utf8(mid@)) == mid@);
    mid
}

} // verus!
