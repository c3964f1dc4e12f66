//! Segmentation of source text into extended grapheme clusters.
//!
//! The lexer's atomic alphabet is the grapheme cluster, not the byte or the
//! code point, so a multi-codepoint cluster (a combined emoji, say) is one
//! unit and can never be split across tokens. The segmentation itself is done
//! by the `unicode_segmentation` crate; its result is named by
//! [`graphemes_of`] and everything the lexer states is phrased over that name.

use vstd::prelude::*;

verus! {

/// The view of a vector of clusters: each cluster as its character sequence.
pub open spec fn cluster_views(v: Seq<Vec<char>>) -> Seq<Seq<char>> {
    Seq::new(v.len(), |i: int| v[i]@)
}

/// The extended grapheme clusters of a text, in order. This names the result
/// of `unicode_segmentation`'s segmentation, which depends on the characters
/// of the text alone.
pub uninterp spec fn graphemes_of(s: Seq<char>) -> Seq<Seq<char>>;

/// Relies on `unicode_segmentation::UnicodeSegmentation::graphemes` with
/// `is_extended` set: it yields the extended grapheme clusters of the string,
/// in order.
#[verifier::external_body]
pub(crate) fn grapheme_clusters(s: &str) -> (r: Vec<Vec<char>>)
    ensures
        cluster_views(r@) == graphemes_of(s@),
{
    unicode_segmentation::UnicodeSegmentation::graphemes(s, true)
        .map(|g| g.chars().collect())
        .collect()
}

} // verus!
