//! Boundary safety: a slice taken by character position sits between
//! scalar-value boundaries of the text's UTF-8 byte storage.

use crate::slicing::clamp_to;
use crate::slicing::spec_substring;
use vstd::prelude::*;
use vstd::utf8::encode_utf8;
use vstd::utf8::encode_utf8_valid_utf8;
use vstd::utf8::valid_utf8;

verus! {

/// UTF-8 encoding distributes over concatenation of character sequences.
pub proof fn lemma_encode_utf8_concat(a: Seq<char>, b: Seq<char>)
    ensures
        encode_utf8(a + b) == encode_utf8(a) + encode_utf8(b),
    decreases a.len(),
{
    if a.len() == 0 {
        assert(a + b =~= b);
        assert(encode_utf8(a) + encode_utf8(b) =~= encode_utf8(b));
    } else {
        assert((a + b).drop_first() =~= a.drop_first() + b);
        lemma_encode_utf8_concat(a.drop_first(), b);
        assert(encode_utf8(a + b) =~= encode_utf8(a) + encode_utf8(b));
    }
}

/// Boundary-safety law: for every valid range, the bytes that encode the
/// resulting slice form one contiguous block of the bytes that encode the
/// whole text, beginning where the encoding of the characters before the
/// slice ends and ending where the encoding of the characters after it
/// begins — both scalar-value boundaries — and are themselves a complete,
/// valid UTF-8 encoding, never a truncated one.
pub proof fn lemma_boundary_safety(s: Seq<char>, begin: int, end: int)
    requires
        0 <= begin <= end,
    ensures
        encode_utf8(s) == encode_utf8(s.take(clamp_to(begin, s.len() as int))) + encode_utf8(
            spec_substring(s, begin, end),
        ) + encode_utf8(s.skip(clamp_to(end, s.len() as int))),
        valid_utf8(encode_utf8(spec_substring(s, begin, end))),
{
    let b = clamp_to(begin, s.len() as int);
    let e = clamp_to(end, s.len() as int);
    assert(s =~= (s.take(b) + s.subrange(b, e)) + s.skip(e));
    lemma_encode_utf8_concat(s.take(b) + s.subrange(b, e), s.skip(e));
    lemma_encode_utf8_concat(s.take(b), s.subrange(b, e));
    encode_utf8_valid_utf8(s.subrange(b, e));
}

} // verus!
