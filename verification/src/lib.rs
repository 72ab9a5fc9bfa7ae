//! Character-index-based slicing of Unicode text.
//!
//! A string stores its text as UTF-8 bytes, where a single character (a
//! Unicode scalar value) may occupy between one and four bytes. Slicing by
//! raw byte offset risks splitting a multi-byte character. This crate
//! implements the [`StringSlice`] trait for [`str`], whose methods slice by
//! character position instead, so the result always begins and ends on a
//! scalar-value boundary.
//!
//! A range of character positions is a [`CharRange`]: one [`CharBound`] per
//! side, each included, excluded or unbounded. Positions past the end of the
//! text clamp to the text's length; a range whose beginning exceeds its end
//! is rejected, fatally by [`StringSlice::slice`] and
//! [`StringSlice::substring`], recoverably by [`StringSlice::try_slice`] and
//! [`StringSlice::try_substring`].
//!
//! Slicing works on scalar values, not grapheme clusters: a cluster of
//! several scalar values (an emoji with modifiers, a combining diacritic)
//! may be split, though the result is still well-formed text.

mod encoding;
mod range;
mod slicing;

pub use encoding::lemma_boundary_safety;
pub use encoding::lemma_encode_utf8_concat;
pub use range::begin_of;
pub use range::end_of;
pub use range::lemma_bound_kind_equivalence;
pub use range::normalizable;
pub use range::range_to_begin_end;
pub use range::CharBound;
pub use range::CharRange;
pub use slicing::clamp_to;
pub use slicing::lemma_clamp;
pub use slicing::lemma_identity;
pub use slicing::spec_substring;
pub use slicing::StringSlice;
