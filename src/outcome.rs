use vstd::prelude::*;

verus! {

/// How much of the pattern and of the input one successful step consumed.
#[derive(Clone, Copy, Debug, PartialEq, Eq, Structural)]
pub struct PositiveMatchResult {
    /// Pattern bytes consumed.
    pub pattern_chars: usize,
    /// Input bytes consumed.
    pub input_chars: usize,
}

/// The outcome of one matching step: it either consumes, or fails as a whole.
#[derive(Clone, Copy, Debug, PartialEq, Eq, Structural)]
pub enum MatchResult {
    Positive(PositiveMatchResult),
    Negative,
}

impl MatchResult {
    /// A success that consumes the given amounts.
    pub open spec fn spec_ok(pattern_chars: usize, input_chars: usize) -> MatchResult {
        MatchResult::Positive(PositiveMatchResult { pattern_chars, input_chars })
    }

    /// A success with the given amounts when `result` holds, else a failure.
    pub open spec fn spec_new(result: bool, pattern_chars: usize, input_chars: usize) -> MatchResult {
        if result {
            Self::spec_ok(pattern_chars, input_chars)
        } else {
            MatchResult::Negative
        }
    }

    pub fn new(result: bool, pattern_chars: usize, input_chars: usize) -> (r: MatchResult)
        ensures
            r == Self::spec_new(result, pattern_chars, input_chars),
    {
        if result {
            MatchResult::ok(pattern_chars, input_chars)
        } else {
            MatchResult::Negative
        }
    }

    pub fn ok(pattern_chars: usize, input_chars: usize) -> (r: MatchResult)
        ensures
            r == Self::spec_ok(pattern_chars, input_chars),
    {
        MatchResult::Positive(PositiveMatchResult { pattern_chars, input_chars })
    }

    pub fn is_matching(&self) -> (r: bool)
        ensures
            r == (*self is Positive),
    {
        match self {
            MatchResult::Positive(_) => true,
            MatchResult::Negative => false,
        }
    }
}

} // verus!
