//! The matcher capability's side of the pipeline: the fixed phrase and
//! threshold every query is scored against, and the descriptor a match
//! produces.
//!
//! The fuzzy scorer itself is an external capability of the host: pure,
//! deterministic and total, answering `None` when the score falls below the
//! threshold and otherwise a descriptor of the characters that matched. The
//! host runs it and hands the outcome to the input transition; this crate
//! fixes the arguments it is to be run with and consumes its answer.

use vstd::prelude::*;

verus! {

/// The least fuzzy-match score at which a query counts as matching the
/// trigger phrase.
pub const MIN_SCORE: usize = 30;

/// One highlighted run of characters inside the matched phrase: the character
/// index where the run starts, and the text of the run.
pub struct HighlightBlock {
    pub start: usize,
    pub text: String,
}

/// What a successful match yields: the highlight runs inside the phrase that
/// the query's characters matched, and how many characters matched in all
/// (the relevance measure; higher is better).
pub struct MatchDescriptor {
    pub blocks: Vec<HighlightBlock>,
    pub matched_len: usize,
}

/// The fixed phrase every query is matched against.
pub fn trigger_phrase() -> (r: String)
    ensures
        r@ == "Zero Width Space"@,
{
    "Zero Width Space".to_owned()
}

} // verus!
