//! The fuzzy matcher of the `fuzzy-matcher` crate, as the search uses it.

use fuzzy_matcher::skim::SkimMatcherV2;
use fuzzy_matcher::FuzzyMatcher;
use vstd::prelude::*;

verus! {

/// Score that skim's V2 algorithm, with its default settings, gives `choice` against
/// `pattern`; `None` when the pattern's characters do not occur in order in the choice.
pub uninterp spec fn skim_score(choice: Seq<char>, pattern: Seq<char>) -> Option<i64>;

/// Calls `FuzzyMatcher::fuzzy_match` on a default `SkimMatcherV2`. Its result is named
/// by `skim_score`; the one fact stated besides is that an empty pattern matches every
/// choice with score `Some(0)`. The scoring algorithm itself is not restated.
#[verifier::external_body]
pub(crate) fn fuzzy_score(choice: &str, pattern: &str) -> (r: Option<i64>)
    ensures
        r == skim_score(choice@, pattern@),
        pattern@.len() == 0 ==> r == Some(0i64),
{
    SkimMatcherV2::default().fuzzy_match(choice, pattern)
}

} // verus!
