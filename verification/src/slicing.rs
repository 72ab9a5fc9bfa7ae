//! The `StringSlice` trait: slicing a `str` by character position.

use crate::range::begin_of;
use crate::range::end_of;
use crate::range::normalizable;
use crate::range::range_to_begin_end;
use crate::range::CharBound;
use crate::range::CharRange;
use vstd::prelude::*;
use vstd::string::StrSliceExecFns;

verus! {

/// The position `pos` held back to at most `len`.
pub open spec fn clamp_to(pos: int, len: int) -> int {
    if pos <= len {
        pos
    } else {
        len
    }
}

/// The characters of `s` from position `begin` up to, not including,
/// position `end`, either position clamped to the number of characters
/// that `s` holds.
pub open spec fn spec_substring(s: Seq<char>, begin: int, end: int) -> Seq<char>
    recommends
        0 <= begin <= end,
{
    s.subrange(clamp_to(begin, s.len() as int), clamp_to(end, s.len() as int))
}

/// Slicing by character (Unicode scalar value) position rather than by
/// byte offset.
///
/// Positions past the end of the text clamp to the text's length. A range
/// whose beginning exceeds its end is the one invalid input: `slice` and
/// `substring` treat it as a caller's error, `try_slice` and
/// `try_substring` return `None` for it.
pub trait StringSlice: View<V = Seq<char>> {
    /// Returns the slice of `self` covering the given range of character
    /// positions.
    fn slice(&self, range: CharRange) -> (r: &str)
        requires
            normalizable(range),
            begin_of(range.start) <= end_of(range.end),
        ensures
            r@ == spec_substring(self@, begin_of(range.start), end_of(range.end)),
    ;

    /// Returns the slice of `self` covering the given range of character
    /// positions, or `None` when the normalized beginning exceeds the
    /// normalized end.
    fn try_slice(&self, range: CharRange) -> (r: Option<&str>)
        requires
            normalizable(range),
        ensures
            begin_of(range.start) > end_of(range.end) ==> r is None,
            begin_of(range.start) <= end_of(range.end) ==> (r matches Some(s) && s@
                == spec_substring(self@, begin_of(range.start), end_of(range.end))),
    ;

    /// Returns the slice of `self` from character position `begin` up to,
    /// not including, character position `end`.
    fn substring(&self, begin: usize, end: usize) -> (r: &str)
        requires
            begin <= end,
        ensures
            r@ == spec_substring(self@, begin as int, end as int),
    ;

    /// Returns the slice of `self` from character position `begin` up to,
    /// not including, character position `end`, or `None` when `begin`
    /// exceeds `end`.
    fn try_substring(&self, begin: usize, end: usize) -> (r: Option<&str>)
        ensures
            begin > end ==> r is None,
            begin <= end ==> (r matches Some(s) && s@ == spec_substring(
                self@,
                begin as int,
                end as int,
            )),
    ;
}

impl StringSlice for str {
    fn slice(&self, range: CharRange) -> (r: &str) {
        let (begin, end) = range_to_begin_end(range);
        self.substring(begin, end)
    }

    fn try_slice(&self, range: CharRange) -> (r: Option<&str>) {
        let (begin, end) = range_to_begin_end(range);
        self.try_substring(begin, end)
    }

    fn substring(&self, begin: usize, end: usize) -> (r: &str) {
        self.try_substring(begin, end).unwrap()
    }

    fn try_substring(&self, begin: usize, end: usize) -> (r: Option<&str>) {
        if begin > end {
            None
        } else {
            let n = self.unicode_len();
            let b = if begin < n {
                begin
            } else {
                n
            };
            let e = if end < n {
                end
            } else {
                n
            };
            Some(self.substring_char(b, e))
        }
    }
}

/// Clamp law: under a valid range, a beginning at or past the text's
/// character count yields the empty text, and an end past the count
/// reaches exactly the text's end.
pub proof fn lemma_clamp(s: Seq<char>, begin: int, end: int)
    requires
        0 <= begin <= end,
    ensures
        begin >= s.len() ==> spec_substring(s, begin, end) == Seq::<char>::empty(),
        begin <= s.len() <= end ==> spec_substring(s, begin, end) == s.skip(begin),
{
    if begin >= s.len() {
        assert(spec_substring(s, begin, end) =~= Seq::<char>::empty());
    }
    if begin <= s.len() <= end {
        assert(spec_substring(s, begin, end) =~= s.skip(begin));
    }
}

/// Identity law: the fully unbounded range reaches the whole text.
pub proof fn lemma_identity(s: Seq<char>)
    requires
        s.len() <= usize::MAX,
    ensures
        spec_substring(s, begin_of(CharBound::Unbounded), end_of(CharBound::Unbounded)) == s,
{
    assert(spec_substring(s, begin_of(CharBound::Unbounded), end_of(CharBound::Unbounded)) =~= s);
}

} // verus!
