//! Character, UTF-8 and UTF-16 measures of text, and the conversion from
//! UTF-16 offsets (as the Java side of Android reports them) to UTF-8 byte
//! offsets into the same text.
use vstd::prelude::*;
use vstd::utf8::encode_scalar;
use vstd::utf8::encode_utf8;

verus! {

broadcast use vstd::utf8::char_is_scalar;

/// Number of bytes in the UTF-8 encoding of `c`.
pub open spec fn utf8_width(c: char) -> nat {
    encode_scalar(c as u32).len()
}

/// Number of bytes in the UTF-8 encoding of `s`; this is what `str::len` returns.
pub open spec fn utf8_len(s: Seq<char>) -> nat {
    encode_utf8(s).len()
}

/// Number of UTF-16 code units that encode `c`: two for characters outside
/// the Basic Multilingual Plane, one for the others.
pub open spec fn utf16_width(c: char) -> nat {
    if (c as u32) < 0x10000 {
        1
    } else {
        2
    }
}

/// Number of UTF-16 code units that encode `s`.
pub open spec fn utf16_len(s: Seq<char>) -> nat
    decreases s.len(),
{
    if s.len() == 0 {
        0
    } else {
        utf16_width(s[0]) + utf16_len(s.drop_first())
    }
}

/// `k` is a character boundary of `text` that lies `offset` UTF-16 units from its start.
pub open spec fn is_utf16_boundary(text: Seq<char>, offset: int, k: int) -> bool {
    0 <= k <= text.len() && utf16_len(text.take(k)) == offset
}

/// The character index that lies `offset` UTF-16 units into `text`, if the
/// offset falls on a character boundary within the text.
pub open spec fn utf16_char_index(text: Seq<char>, offset: int) -> Option<int> {
    if exists|k: int| is_utf16_boundary(text, offset, k) {
        Some(choose|k: int| is_utf16_boundary(text, offset, k))
    } else {
        None
    }
}

/// The UTF-8 byte offset that lies `offset` UTF-16 units into `text`, if the
/// offset falls on a character boundary within the text.
pub open spec fn utf16_byte_offset(text: Seq<char>, offset: int) -> Option<int> {
    match utf16_char_index(text, offset) {
        Some(k) => Some(utf8_len(text.take(k)) as int),
        None => None,
    }
}

/// Every character takes one to four bytes.
pub proof fn lemma_utf8_width_bounds(c: char)
    ensures
        1 <= utf8_width(c) <= 4,
        utf16_width(c) <= utf8_width(c),
{
}

/// The UTF-8 encoding of a concatenation is the concatenation of the encodings.
pub proof fn lemma_encode_utf8_concat(a: Seq<char>, b: Seq<char>)
    ensures
        encode_utf8(a + b) == encode_utf8(a) + encode_utf8(b),
    decreases a.len(),
{
    if a.len() == 0 {
        assert(a + b =~= b);
        assert(encode_utf8(a) =~= Seq::<u8>::empty());
        assert(encode_utf8(b) =~= encode_utf8(a) + encode_utf8(b));
    } else {
        assert((a + b).drop_first() =~= a.drop_first() + b);
        assert((a + b)[0] == a[0]);
        lemma_encode_utf8_concat(a.drop_first(), b);
        assert(encode_utf8(a + b) =~= encode_scalar(a[0] as u32) + (encode_utf8(a.drop_first())
            + encode_utf8(b)));
    }
}

/// Byte length is additive over concatenation.
pub proof fn lemma_utf8_len_concat(a: Seq<char>, b: Seq<char>)
    ensures
        utf8_len(a + b) == utf8_len(a) + utf8_len(b),
{
    lemma_encode_utf8_concat(a, b);
}

/// UTF-16 length is additive over concatenation.
pub proof fn lemma_utf16_len_concat(a: Seq<char>, b: Seq<char>)
    ensures
        utf16_len(a + b) == utf16_len(a) + utf16_len(b),
    decreases a.len(),
{
    if a.len() == 0 {
        assert(a + b =~= b);
    } else {
        assert((a + b).drop_first() =~= a.drop_first() + b);
        assert((a + b)[0] == a[0]);
        lemma_utf16_len_concat(a.drop_first(), b);
    }
}

/// The UTF-8 length of one character.
pub proof fn lemma_utf8_len_single(c: char)
    ensures
        utf8_len(seq![c]) == utf8_width(c),
{
    assert(seq![c].drop_first() =~= Seq::<char>::empty());
    assert(encode_utf8(seq![c].drop_first()) =~= Seq::<u8>::empty());
    assert(encode_utf8(seq![c]) =~= encode_scalar(c as u32));
}

/// The UTF-16 length of one character.
pub proof fn lemma_utf16_len_single(c: char)
    ensures
        utf16_len(seq![c]) == utf16_width(c),
{
    reveal_with_fuel(utf16_len, 2);
    assert(seq![c].drop_first() =~= Seq::<char>::empty());
}

/// Extending a prefix by one character adds that character's widths.
pub proof fn lemma_prefix_step(s: Seq<char>, i: int)
    requires
        0 <= i < s.len(),
    ensures
        utf8_len(s.take(i + 1)) == utf8_len(s.take(i)) + utf8_width(s[i]),
        utf16_len(s.take(i + 1)) == utf16_len(s.take(i)) + utf16_width(s[i]),
{
    assert(s.take(i + 1) =~= s.take(i) + seq![s[i]]);
    lemma_utf8_len_concat(s.take(i), seq![s[i]]);
    lemma_utf16_len_concat(s.take(i), seq![s[i]]);
    lemma_utf8_len_single(s[i]);
    lemma_utf16_len_single(s[i]);
}

/// Prefix measures grow strictly with the prefix, and the UTF-16 measure
/// never exceeds the UTF-8 one.
pub proof fn lemma_prefix_monotone(s: Seq<char>, i: int, j: int)
    requires
        0 <= i <= j <= s.len(),
    ensures
        utf8_len(s.take(i)) + (j - i) <= utf8_len(s.take(j)),
        utf16_len(s.take(i)) + (j - i) <= utf16_len(s.take(j)),
        utf16_len(s.take(j)) - utf16_len(s.take(i)) <= utf8_len(s.take(j)) - utf8_len(
            s.take(i),
        ),
    decreases j - i,
{
    if i < j {
        lemma_prefix_monotone(s, i, j - 1);
        lemma_prefix_step(s, j - 1);
        lemma_utf8_width_bounds(s[j - 1]);
    }
}

/// The prefix of `s` with `k` characters and the rest together make up `s`.
pub proof fn lemma_take_skip_len(s: Seq<char>, k: int)
    requires
        0 <= k <= s.len(),
    ensures
        utf8_len(s) == utf8_len(s.take(k)) + utf8_len(s.skip(k)),
        utf16_len(s) == utf16_len(s.take(k)) + utf16_len(s.skip(k)),
{
    assert(s =~= s.take(k) + s.skip(k));
    lemma_utf8_len_concat(s.take(k), s.skip(k));
    lemma_utf16_len_concat(s.take(k), s.skip(k));
}

/// At most one character boundary lies at a given UTF-16 offset.
pub proof fn lemma_utf16_boundary_unique(text: Seq<char>, offset: int, k1: int, k2: int)
    requires
        is_utf16_boundary(text, offset, k1),
        is_utf16_boundary(text, offset, k2),
    ensures
        k1 == k2,
{
    if k1 < k2 {
        lemma_prefix_monotone(text, k1, k2);
    } else if k2 < k1 {
        lemma_prefix_monotone(text, k2, k1);
    }
}

/// The character index of a boundary, when `k` is known to be one.
pub proof fn lemma_utf16_char_index_is(text: Seq<char>, offset: int, k: int)
    requires
        is_utf16_boundary(text, offset, k),
    ensures
        utf16_char_index(text, offset) == Some(k),
{
    let c = choose|j: int| is_utf16_boundary(text, offset, j);
    lemma_utf16_boundary_unique(text, offset, k, c);
}

/// Number of bytes in the UTF-8 encoding of `c`, as `char::len_utf8` documents it.
pub fn char_utf8_width(c: char) -> (w: usize)
    ensures
        w == utf8_width(c),
{
    let u = c as u32;
    if u <= 0x7f {
        1
    } else if u <= 0x7ff {
        2
    } else if u <= 0xffff {
        3
    } else {
        4
    }
}

/// Number of UTF-16 code units that encode `c`, as `char::len_utf16` documents it.
pub fn char_utf16_width(c: char) -> (w: usize)
    ensures
        w == utf16_width(c),
{
    if (c as u32) < 0x10000 {
        1
    } else {
        2
    }
}

/// Collects the characters of `s` in order.
pub fn chars_of(s: &str) -> (v: Vec<char>)
    ensures
        v@ == s@,
{
    let mut v: Vec<char> = Vec::new();
    for c in it: s.chars()
        invariant
            v@ == it.seq().take(it.index() as int),
    {
        v.push(c);
    }
    v
}

/// Finds the character boundary that lies `offset` UTF-16 units into
/// `text`, returning its character index and its UTF-8 byte offset.
pub fn utf16_boundary(text: &Vec<char>, offset: usize) -> (r: Option<(usize, usize)>)
    requires
        utf8_len(text@) <= usize::MAX,
    ensures
        match r {
            Some((k, b)) => utf16_char_index(text@, offset as int) == Some(k as int) && b
                == utf8_len(text@.take(k as int)),
            None => utf16_char_index(text@, offset as int) is None,
        },
{
    let n = text.len();
    let mut units: usize = 0;
    let mut bytes: usize = 0;
    let mut i: usize = 0;
    while i < n
        invariant
            n == text@.len(),
            utf8_len(text@) <= usize::MAX,
            0 <= i <= n,
            units == utf16_len(text@.take(i as int)),
            bytes == utf8_len(text@.take(i as int)),
            forall|j: int| 0 <= j < i ==> !is_utf16_boundary(text@, offset as int, j),
        decreases n - i,
    {
        if units == offset {
            proof {
                lemma_utf16_char_index_is(text@, offset as int, i as int);
            }
            return Some((i, bytes));
        }
        proof {
            lemma_prefix_step(text@, i as int);
            lemma_prefix_monotone(text@, i as int + 1, n as int);
            lemma_prefix_monotone(text@, 0, i as int + 1);
            assert(text@.take(n as int) =~= text@);
            assert(text@.take(0) =~= Seq::<char>::empty());
        }
        units = units + char_utf16_width(text[i]);
        bytes = bytes + char_utf8_width(text[i]);
        i = i + 1;
    }
    assert(text@.take(n as int) =~= text@);
    if units == offset {
        proof {
            lemma_utf16_char_index_is(text@, offset as int, n as int);
        }
        Some((n, bytes))
    } else {
        None
    }
}

/// The UTF-8 byte offset into `text` of the character boundary that lies
/// `offset` UTF-16 units from its start; `None` when the offset is past the
/// end of the text or falls inside a surrogate pair.
pub fn utf16_byte(text: &str, offset: usize) -> (r: Option<usize>)
    requires
        utf8_len(text@) <= usize::MAX,
    ensures
        match r {
            Some(b) => utf16_byte_offset(text@, offset as int) == Some(b as int),
            None => utf16_byte_offset(text@, offset as int) is None,
        },
{
    let chars = chars_of(text);
    match utf16_boundary(&chars, offset) {
        Some((_, b)) => Some(b),
        None => None,
    }
}

} // verus!
