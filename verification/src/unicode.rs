//! The boundary to Unicode segmentation: names for what the outside
//! segmentation and trimming functions return, and the small set of trusted
//! wrappers through which the rest of the crate reaches them.

use vstd::prelude::*;
use unicode_segmentation::UnicodeSegmentation;

verus! {

/// The extended grapheme clusters of a text, in order, as
/// unicode_segmentation's `graphemes(true)` segments it. Each element is one
/// cluster, itself a sequence of characters; the clusters concatenated in
/// order give back the text.
pub uninterp spec fn graphemes_of(s: Seq<char>) -> Seq<Seq<char>>;

/// What `str::trim` returns: the text with leading and trailing whitespace
/// characters removed. The result depends on the characters alone.
pub uninterp spec fn trim_of(s: Seq<char>) -> Seq<char>;

/// The first `k` grapheme clusters of `s` (all of them if `s` has fewer than
/// `k`), still as clusters.
pub open spec fn grapheme_prefix_clusters(s: Seq<char>, k: nat) -> Seq<Seq<char>> {
    if k <= graphemes_of(s).len() {
        graphemes_of(s).take(k as int)
    } else {
        graphemes_of(s)
    }
}

/// The first `k` grapheme clusters of `s`, concatenated back into one text.
pub open spec fn grapheme_prefix(s: Seq<char>, k: nat) -> Seq<char> {
    grapheme_prefix_clusters(s, k).flatten()
}

/// Relies on unicode_segmentation's `UnicodeSegmentation::graphemes` with
/// `is_extended == true`: the iterator yields the extended grapheme clusters
/// of the text, and `count` returns how many there are. The second clause
/// relies on cluster boundaries depending only on the text before them:
/// segmenting a concatenation yields at most as many clusters as segmenting
/// the two parts separately, since parts can merge at the seam but a cluster
/// either part already held is never split by it.
#[verifier::external_body]
pub(crate) fn grapheme_count(s: &str) -> (n: usize)
    ensures
        n == graphemes_of(s@).len(),
        forall|a: Seq<char>|
            #![trigger graphemes_of(a + s@)]
            graphemes_of(a + s@).len() <= graphemes_of(a).len() + n,
{
    s.graphemes(true).count()
}

/// Relies on unicode_segmentation's `UnicodeSegmentation::graphemes`
/// (extended clusters) again: the iterator yields the clusters in their
/// original order, so collecting the first `k` rebuilds the prefix of the
/// text that they cover. Re-segmenting that prefix finds the same clusters,
/// because a cluster boundary depends only on the text before it.
#[verifier::external_body]
pub(crate) fn grapheme_take(s: &str, k: usize) -> (r: String)
    ensures
        r@ == grapheme_prefix(s@, k as nat),
        graphemes_of(r@) == grapheme_prefix_clusters(s@, k as nat),
{
    s.graphemes(true).take(k).collect()
}

/// Relies on `str::trim`: it returns the text with leading and trailing
/// `char::is_whitespace` characters removed. Trimming cannot raise the
/// cluster count: only whole characters at the ends are deleted, and a
/// whitespace character neither extends nor joins the cluster after it, so
/// every cluster boundary of the trimmed text was a boundary already.
#[verifier::external_body]
pub(crate) fn trim_ends(s: &str) -> (r: String)
    ensures
        r@ == trim_of(s@),
        graphemes_of(r@).len() <= graphemes_of(s@).len(),
{
    s.trim().to_owned()
}

} // verus!
