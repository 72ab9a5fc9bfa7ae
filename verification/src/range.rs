//! Character ranges and their normalization into a `(begin, end)` pair.

use vstd::prelude::*;

verus! {

/// One side of a character range: a bound on a zero-based character
/// (Unicode scalar value) position.
#[derive(Clone, Copy, Debug, PartialEq, Eq, Structural)]
pub enum CharBound {
    /// The position itself belongs to the range.
    Included(usize),
    /// The range begins just past, or ends just before, the position.
    Excluded(usize),
    /// No bound on this side.
    Unbounded,
}

/// A range of character positions, one bound per side.
#[derive(Clone, Copy, Debug, PartialEq, Eq, Structural)]
pub struct CharRange {
    pub start: CharBound,
    pub end: CharBound,
}

/// The first character position inside a range with the given start bound.
pub open spec fn begin_of(start: CharBound) -> int {
    match start {
        CharBound::Included(v) => v as int,
        CharBound::Excluded(v) => v as int + 1,
        CharBound::Unbounded => 0,
    }
}

/// The first character position past a range with the given end bound.
///
/// An unbounded end means "through the end of the text". Positions past the
/// end of a text clamp to its length, so the largest representable position
/// serves as the sentinel.
pub open spec fn end_of(end: CharBound) -> int {
    match end {
        CharBound::Included(v) => v as int + 1,
        CharBound::Excluded(v) => v as int,
        CharBound::Unbounded => usize::MAX as int,
    }
}

/// Whether normalizing the range stays representable: an `Excluded` start
/// bound and an `Included` end bound each add one to their position, which
/// the largest representable position cannot bear.
pub open spec fn normalizable(range: CharRange) -> bool {
    &&& (range.start matches CharBound::Excluded(v) ==> v < usize::MAX)
    &&& (range.end matches CharBound::Included(v) ==> v < usize::MAX)
}

/// Resolves both bounds of a range into a concrete `(begin, end)` pair of
/// character positions: the first position inside the range and the first
/// position past it.
pub fn range_to_begin_end(range: CharRange) -> (r: (usize, usize))
    requires
        normalizable(range),
    ensures
        r.0 == begin_of(range.start),
        r.1 == end_of(range.end),
{
    let begin: usize = match range.start {
        CharBound::Included(v) => v,
        CharBound::Excluded(v) => v + 1,
        CharBound::Unbounded => 0,
    };

    let end: usize = match range.end {
        CharBound::Included(v) => v + 1,
        CharBound::Excluded(v) => v,
        CharBound::Unbounded => usize::MAX,
    };

    (begin, end)
}

/// Bound-kind equivalence: an excluded start bound reaches the same range
/// as the included bound one position higher, and an included end bound
/// reaches the same range as the excluded bound one position higher. The
/// largest representable position is left out: one position higher would
/// not be representable.
pub proof fn lemma_bound_kind_equivalence(v: usize)
    requires
        v < usize::MAX,
    ensures
        begin_of(CharBound::Excluded(v)) == begin_of(CharBound::Included((v + 1) as usize)),
        end_of(CharBound::Included(v)) == end_of(CharBound::Excluded((v + 1) as usize)),
{
}

} // verus!
