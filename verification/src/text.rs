use vstd::prelude::*;
use vstd::utf8::{encode_scalar, encode_utf8, is_ascii_chars, is_ascii_chars_encode_utf8};

verus! {

/// The length in bytes of the UTF-8 encoding of `s`, as `str::len` reports it.
pub open spec fn byte_len(s: Seq<char>) -> usize {
    encode_utf8(s).len() as usize
}

/// The number of bytes of the UTF-8 encoding of `s`.
pub fn utf8_byte_len(s: &String) -> (n: usize)
    ensures
        n == byte_len(s@),
{
    s.as_str().len()
}

/// Every character takes at least one byte of UTF-8.
proof fn lemma_encoding_at_least_chars(s: Seq<char>)
    ensures
        encode_utf8(s).len() >= s.len(),
    decreases s.len(),
{
    if s.len() > 0 {
        lemma_encoding_at_least_chars(s.drop_first());
        assert(encode_scalar(s[0] as u32).len() >= 1);
    }
}

/// Byte lengths count bytes, not characters: an ASCII text has one byte per
/// character, every text at least one, and a character beyond ASCII more
/// than one.
pub proof fn rule_byte_len(s: Seq<char>, c: char)
    ensures
        encode_utf8(s).len() <= usize::MAX ==> byte_len(s) >= s.len(),
        is_ascii_chars(s) && s.len() <= usize::MAX ==> byte_len(s) == s.len(),
        (c as u32) > 0x7f ==> byte_len(seq![c]) >= 2,
{
    lemma_encoding_at_least_chars(s);
    if is_ascii_chars(s) {
        is_ascii_chars_encode_utf8(s);
    }
    let t = seq![c];
    assert(t.drop_first() =~= Seq::<char>::empty());
    assert(encode_utf8(t) == encode_scalar(c as u32) + encode_utf8(Seq::<char>::empty()));
}

} // verus!
