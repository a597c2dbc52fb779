//! Mapping byte offsets of UTF-8 text to the characters that start there.

use vstd::prelude::*;
use vstd::string::StrSliceExecFns;
use vstd::utf8::*;

verus! {

broadcast use {encode_utf8_valid_utf8, encode_utf8_decode_utf8};

/// The UTF-8 encoding of `s`.
pub open spec fn utf8_of(s: Seq<char>) -> Seq<u8> {
    encode_utf8(s)
}

/// Length of `s` in bytes once encoded as UTF-8.
pub open spec fn byte_len(s: Seq<char>) -> nat {
    utf8_of(s).len()
}

/// `index` is the offset of the first byte of some character of `s`.
pub open spec fn is_char_start(s: Seq<char>, index: int) -> bool {
    0 <= index < byte_len(s) && is_char_boundary(utf8_of(s), index)
}

/// The characters encoded in the bytes of `s` before offset `index`.
pub open spec fn text_before(s: Seq<char>, index: int) -> Seq<char> {
    decode_utf8(utf8_of(s).subrange(0, index))
}

/// The characters encoded in the bytes of `s` from offset `index` on.
pub open spec fn text_from(s: Seq<char>, index: int) -> Seq<char> {
    decode_utf8(utf8_of(s).subrange(index, byte_len(s) as int))
}

/// The character whose encoding starts at byte offset `index` of `s`.
pub open spec fn char_at(s: Seq<char>, index: int) -> char {
    text_from(s, index)[0]
}

/// Splitting the encoding of `s` at a character boundary splits `s` itself.
pub proof fn lemma_split_at_boundary(s: Seq<char>, index: int)
    requires
        is_char_boundary(utf8_of(s), index),
    ensures
        text_before(s, index) + text_from(s, index) == s,
        utf8_of(text_before(s, index)) == utf8_of(s).subrange(0, index),
        utf8_of(text_from(s, index)) == utf8_of(s).subrange(index, byte_len(s) as int),
{
    let b = utf8_of(s);
    valid_utf8_split(b, index);
    decode_utf8_split(b, index);
    decode_utf8_encode_utf8(b.subrange(0, index));
    decode_utf8_encode_utf8(b.subrange(index, b.len() as int));
}

/// The text from a character start holds at least that character.
pub proof fn lemma_text_from_char_start(s: Seq<char>, index: int)
    requires
        is_char_start(s, index),
    ensures
        text_from(s, index).len() > 0,
{
    lemma_split_at_boundary(s, index);
    if text_from(s, index).len() == 0 {
        assert(utf8_of(text_from(s, index)) =~= Seq::<u8>::empty());
    }
}

/// Encoding a concatenation concatenates the encodings.
pub proof fn lemma_utf8_of_concat(x: Seq<char>, y: Seq<char>)
    ensures
        utf8_of(x + y) == utf8_of(x) + utf8_of(y),
    decreases x.len(),
{
    if x.len() == 0 {
        assert(x + y =~= y);
        assert(utf8_of(x) + utf8_of(y) =~= utf8_of(y));
    } else {
        assert((x + y).drop_first() =~= x.drop_first() + y);
        lemma_utf8_of_concat(x.drop_first(), y);
        assert(utf8_of(x + y) =~= utf8_of(x) + utf8_of(y));
    }
}

/// The character at position `k` of `s` starts at the byte offset taken up by
/// the characters before it, and resolves there to itself. No offset strictly
/// inside its encoding starts a character, so none of them can be resolved.
pub proof fn law_char_starts(s: Seq<char>, k: int)
    requires
        0 <= k < s.len(),
    ensures
        is_char_start(s, byte_len(s.take(k)) as int),
        char_at(s, byte_len(s.take(k)) as int) == s[k],
        forall|j: int|
            byte_len(s.take(k)) < j < byte_len(s.take(k)) + byte_len(seq![s[k]])
                ==> !is_char_start(s, j),
{
    let start = byte_len(s.take(k)) as int;
    let tail = s.skip(k);
    let bytes = utf8_of(s);
    let b = utf8_of(tail);
    assert(s =~= s.take(k) + tail);
    lemma_utf8_of_concat(s.take(k), tail);
    assert(bytes.subrange(start, byte_len(s) as int) =~= b);
    encode_utf8_first_scalar(tail);
    let w = encode_scalar(s[k] as u32).len() as int;
    assert(utf8_of(seq![s[k]]) =~= encode_scalar(s[k] as u32) + utf8_of(seq![s[k]].drop_first()));
    assert(utf8_of(seq![s[k]].drop_first()) =~= Seq::<u8>::empty());
    assert(byte_len(seq![s[k]]) == w);
    assert(bytes[start] == b[0]);
    is_char_boundary_iff_not_is_continuation_byte(bytes, start);
    assert forall|j: int| start < j < start + w implies !is_char_start(s, j) by {
        assert(bytes[j] == b[j - start]);
        is_char_boundary_iff_not_is_continuation_byte(bytes, j);
    }
}

/// Splits `s` at byte offset `index`, which must be a character boundary.
pub fn split_at_char_start(s: &str, index: usize) -> (r: (&str, &str))
    requires
        is_char_boundary(utf8_of(s@), index as int),
    ensures
        r.0@ == text_before(s@, index as int),
        r.1@ == text_from(s@, index as int),
{
    s.split_at(index)
}

/// Returns the character whose UTF-8 encoding starts at byte offset `index`
/// of `string`.
pub fn nth_char(string: &str, index: usize) -> (c: char)
    requires
        is_char_start(string@, index as int),
    ensures
        c == char_at(string@, index as int),
{
    let (_, rest) = split_at_char_start(string, index);
    proof {
        lemma_text_from_char_start(string@, index as int);
    }
    rest.get_char(0)
}

} // verus!
