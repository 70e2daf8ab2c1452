//! Grapheme clusters of a text.

use vstd::prelude::*;
use unicode_segmentation::UnicodeSegmentation;

verus! {

/// The number of extended grapheme clusters that make up a text, as
/// `unicode_segmentation` splits it. The rules of the split are not stated
/// here; what matters to the conversion is only whether the number exceeds
/// one.
pub uninterp spec fn grapheme_count(text: Seq<char>) -> nat;

/// Counts the extended grapheme clusters of `text`.
///
/// This calls `UnicodeSegmentation::graphemes` of `unicode_segmentation`
/// with extended clusters and counts what the iterator yields. Taken on
/// trust: the call returns, and its result depends on the characters of
/// the text and on nothing else, so that it is the number that
/// [`grapheme_count`] names.
#[verifier::external_body]
pub(crate) fn count_graphemes(text: &str) -> (count: usize)
    ensures
        count == grapheme_count(text@),
{
    text.graphemes(true).count()
}

} // verus!
