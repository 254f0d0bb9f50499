//! Display-safe string truncation: cut a text down to a budget of
//! user-perceived characters (grapheme clusters), appending a suffix when a
//! cut was made, and never splitting a cluster in two.

pub mod unicode;

use vstd::prelude::*;

use crate::unicode::{graphemes_of, trim_of, grapheme_prefix, grapheme_count, grapheme_take, trim_ends};
use vstd::string::StringExecFns;

verus! {

/// The one configuration error: the suffix alone already has more grapheme
/// clusters than the whole output is allowed, so no output could carry it.
#[derive(Clone, Copy, Debug, PartialEq, Eq, Structural)]
pub enum StruncError {
    UnsatisfiableConfiguration,
}

/// A configuration can be satisfied exactly when the suffix fits inside the
/// budget on its own.
pub open spec fn satisfiable(length: nat, suffix: Seq<char>) -> bool {
    graphemes_of(suffix).len() <= length
}

/// How many grapheme clusters of the input a cut may keep: the budget minus
/// the clusters the suffix takes, saturating at zero.
pub open spec fn keep_budget(length: nat, suffix: Seq<char>) -> nat {
    if satisfiable(length, suffix) {
        (length - graphemes_of(suffix).len()) as nat
    } else {
        0
    }
}

/// What rendering a satisfiable request returns: the input verbatim when it
/// fits the budget; otherwise the kept prefix of whole grapheme clusters,
/// trimmed of whitespace at both ends, with the suffix appended.
pub open spec fn rendered(input: Seq<char>, length: nat, suffix: Seq<char>) -> Seq<char> {
    if graphemes_of(input).len() <= length {
        input
    } else {
        trim_of(grapheme_prefix(input, keep_budget(length, suffix))) + suffix
    }
}

/// `s` ends with the characters of `t`.
pub open spec fn ends_with(s: Seq<char>, t: Seq<char>) -> bool {
    s.len() >= t.len() && s.skip(s.len() - t.len()) == t
}

/// A truncation request: the text to truncate, the budget in grapheme
/// clusters for the whole output (suffix included), and the suffix to append
/// when a cut is made.
pub struct Struncable {
    input: String,
    length: usize,
    suffix: String,
}

/// The mathematical content of a request: the characters of the text and of
/// the suffix, and the budget.
pub ghost struct StruncView {
    pub input: Seq<char>,
    pub length: nat,
    pub suffix: Seq<char>,
}

impl View for Struncable {
    type V = StruncView;

    closed spec fn view(&self) -> StruncView {
        StruncView { input: self.input@, length: self.length as nat, suffix: self.suffix@ }
    }
}

impl Struncable {
    /// Render the request, assuming the configuration is satisfiable: cut the
    /// input down to the budget of grapheme clusters, trimming whitespace at
    /// the cut and appending the suffix, or hand the input back verbatim when
    /// it already fits.
    pub fn to_string(&self) -> (r: String)
        requires
            satisfiable(self@.length, self@.suffix),
        ensures
            r@ == rendered(self@.input, self@.length, self@.suffix),
            graphemes_of(self@.input).len() <= self@.length ==> r@ == self@.input,
            graphemes_of(r@).len() <= self@.length,
            graphemes_of(self@.input).len() > self@.length ==> ends_with(r@, self@.suffix),
    {
        let input_len = grapheme_count(self.input.as_str());
        if input_len <= self.length {
            self.input.clone()
        } else {
            let suffix_len = grapheme_count(self.suffix.as_str());
            let kept = self.length - suffix_len;
            let cut = grapheme_take(self.input.as_str(), kept);
            let trimmed = trim_ends(cut.as_str());
            let r = trimmed.concat(self.suffix.as_str());
            proof {
                assert(graphemes_of(trimmed@ + self.suffix@).len()
                    <= graphemes_of(trimmed@).len() + graphemes_of(self.suffix@).len());
                assert(r@.skip(trimmed@.len() as int) =~= self.suffix@);
            }
            r
        }
    }

    /// Render the request, first checking that the configuration is
    /// satisfiable: the suffix must fit inside the budget on its own, else
    /// nothing is rendered and the error says so.
    pub fn render(&self) -> (r: Result<String, StruncError>)
        ensures
            r is Ok <==> satisfiable(self@.length, self@.suffix),
            r matches Ok(out) ==> out@ == rendered(self@.input, self@.length, self@.suffix),
            r matches Ok(out) ==> graphemes_of(out@).len() <= self@.length,
            r matches Ok(out) ==> (graphemes_of(self@.input).len() <= self@.length
                ==> out@ == self@.input),
            r matches Ok(out) ==> (graphemes_of(self@.input).len() > self@.length
                ==> ends_with(out@, self@.suffix)),
            r matches Err(e) ==> e == StruncError::UnsatisfiableConfiguration,
    {
        let suffix_len = grapheme_count(self.suffix.as_str());
        if self.length < suffix_len {
            Err(StruncError::UnsatisfiableConfiguration)
        } else {
            Ok(self.to_string())
        }
    }
}

impl Default for Struncable {
    /// The default request: empty input, a budget of 25 clusters, and the
    /// three-period suffix.
    fn default() -> (r: Self)
        ensures
            r@.input == Seq::<char>::empty(),
            r@.length == 25,
            r@.suffix == "..."@,
    {
        Struncable { input: String::new(), length: 25, suffix: "...".to_owned() }
    }
}

/// Builds a truncation request straight from a piece of text, with the
/// budget and the suffix defaulted, given explicitly, or both.
pub trait Strunc {
    fn strunc(self) -> Struncable;

    fn strunc_len(self, length: usize) -> Struncable;

    fn strunc_len_suf(self, length: usize, suffix: &str) -> Struncable;
}

impl<'a> Strunc for &'a str {
    /// A request for this text with the default budget of 25 clusters and
    /// the three-period suffix.
    fn strunc(self) -> (r: Struncable)
        ensures
            r@.input == self@,
            r@.length == 25,
            r@.suffix == "..."@,
    {
        Struncable { input: self.to_owned(), length: 25, suffix: "...".to_owned() }
    }

    /// A request for this text with the given budget and the three-period
    /// suffix.
    fn strunc_len(self, length: usize) -> (r: Struncable)
        ensures
            r@.input == self@,
            r@.length == length,
            r@.suffix == "..."@,
    {
        Struncable { input: self.to_owned(), length, suffix: "...".to_owned() }
    }

    /// A request for this text with the given budget and suffix.
    fn strunc_len_suf(self, length: usize, suffix: &str) -> (r: Struncable)
        ensures
            r@.input == self@,
            r@.length == length,
            r@.suffix == suffix@,
    {
        Struncable { input: self.to_owned(), length, suffix: suffix.to_owned() }
    }
}

} // verus!
