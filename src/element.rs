use vstd::prelude::*;

use crate::class::{spec_classify, CharacterType};
use crate::error::PatternError;
use crate::outcome::MatchResult;

verus! {

/// The quantifier byte for one or more occurrences.
pub const ONE_OR_MORE: u8 = 43;

/// The quantifier byte for zero or one occurrence.
pub const ZERO_OR_ONE: u8 = 63;

/// A classified element together with its quantifier: the unit of one
/// matching step.
#[derive(Clone, Copy, Debug, PartialEq, Eq, Structural)]
pub enum MatchingType {
    /// Matches exactly one byte (no quantifier).
    Simple(CharacterType),
    /// `+`: matches the whole run of one or more bytes.
    Multiple(CharacterType),
    /// `?`: matches zero or one byte.
    Optional(CharacterType),
}

/// The element that starts at offset `i` of `p`: its character, then `+` or
/// `?` if the byte right after it is one. A quantifier byte cannot start an
/// element.
pub open spec fn spec_element(p: Seq<u8>, i: int) -> Result<MatchingType, PatternError> {
    if p[i] == ONE_OR_MORE || p[i] == ZERO_OR_ONE {
        Err(PatternError::DanglingQuantifier)
    } else {
        match spec_classify(p, i) {
            Err(e) => Err(e),
            Ok(c) => {
                let w = c.spec_len() as int;
                if i + w < p.len() && p[i + w] == ONE_OR_MORE {
                    Ok(MatchingType::Multiple(c))
                } else if i + w < p.len() && p[i + w] == ZERO_OR_ONE {
                    Ok(MatchingType::Optional(c))
                } else {
                    Ok(MatchingType::Simple(c))
                }
            },
        }
    }
}

impl MatchingType {
    /// How many pattern bytes encode the element, its quantifier included.
    pub open spec fn spec_len(self) -> usize {
        match self {
            MatchingType::Simple(c) => c.spec_len(),
            MatchingType::Multiple(c) => (c.spec_len() + 1) as usize,
            MatchingType::Optional(c) => (c.spec_len() + 1) as usize,
        }
    }

    /// How many input bytes one step consumes at offset `i` of `s`, or `None`
    /// where the step fails. Quantified steps take the whole greedy run.
    pub open spec fn spec_step(self, s: Seq<u8>, i: int) -> Option<nat> {
        match self {
            MatchingType::Simple(c) => if 0 <= i < s.len() && c.accepts(s[i]) {
                Some(1)
            } else {
                None
            },
            MatchingType::Multiple(c) => {
                let n = c.run_length(s, i);
                if n > 0 {
                    Some(n)
                } else {
                    None
                }
            },
            MatchingType::Optional(c) => {
                let n = c.run_length(s, i);
                if n < 2 {
                    Some(n)
                } else {
                    None
                }
            },
        }
    }

    /// Classifies the element that starts at offset `at` of the pattern.
    pub fn get_type(pattern: &[u8], at: usize) -> (r: Result<MatchingType, PatternError>)
        requires
            at < pattern@.len(),
        ensures
            r == spec_element(pattern@, at as int),
    {
        if pattern[at] == ONE_OR_MORE || pattern[at] == ZERO_OR_ONE {
            return Err(PatternError::DanglingQuantifier);
        }
        let character = CharacterType::get_type(pattern, at)?;
        let w = character.len();
        if at + w < pattern.len() {
            match pattern[at + w] {
                ONE_OR_MORE => Ok(MatchingType::Multiple(character)),
                ZERO_OR_ONE => Ok(MatchingType::Optional(character)),
                _ => Ok(MatchingType::Simple(character)),
            }
        } else {
            Ok(MatchingType::Simple(character))
        }
    }

    pub fn len(&self) -> (r: usize)
        ensures
            r == self.spec_len(),
    {
        match self {
            MatchingType::Simple(c) => c.len(),
            MatchingType::Multiple(c) => c.len() + 1,
            MatchingType::Optional(c) => c.len() + 1,
        }
    }

    /// One step at offset `at` of the input: a success reports the element's
    /// pattern width and the input bytes taken.
    pub fn matches(&self, input: &[u8], at: usize) -> (r: MatchResult)
        requires
            at <= input@.len(),
        ensures
            match r {
                MatchResult::Positive(p) => {
                    &&& self.spec_step(input@, at as int) == Some(p.input_chars as nat)
                    &&& p.pattern_chars == self.spec_len()
                    &&& at + p.input_chars <= input@.len()
                },
                MatchResult::Negative => self.spec_step(input@, at as int) is None,
            },
    {
        match self {
            MatchingType::Simple(c) => {
                if at == input.len() {
                    MatchResult::Negative
                } else {
                    c.matches(input[at])
                }
            },
            MatchingType::Multiple(c) => {
                let matches = c.match_count(input, at);
                MatchResult::new(matches > 0, c.len() + 1, matches)
            },
            MatchingType::Optional(c) => {
                let matches = c.match_count(input, at);
                MatchResult::new(matches < 2, c.len() + 1, matches)
            },
        }
    }
}

/// The elements of `p` from offset `i` on, or the first classification error.
pub open spec fn spec_parse(p: Seq<u8>, i: int) -> Result<Seq<MatchingType>, PatternError>
    decreases p.len() - i,
{
    if i < 0 || i >= p.len() {
        Ok(Seq::empty())
    } else {
        match spec_element(p, i) {
            Err(e) => Err(e),
            Ok(m) => match spec_parse(p, i + m.spec_len()) {
                Err(e) => Err(e),
                Ok(rest) => Ok(seq![m] + rest),
            },
        }
    }
}

/// Classifies the whole pattern into its elements, left to right.
pub fn parse_pattern(pattern: &[u8]) -> (r: Result<Vec<MatchingType>, PatternError>)
    ensures
        match r {
            Ok(v) => spec_parse(pattern@, 0) == Ok::<Seq<MatchingType>, PatternError>(v@),
            Err(e) => spec_parse(pattern@, 0) == Err::<Seq<MatchingType>, PatternError>(e),
        },
{
    let mut elements: Vec<MatchingType> = Vec::new();
    let mut i: usize = 0;
    while i < pattern.len()
        invariant
            i <= pattern@.len(),
            spec_parse(pattern@, 0) == (match spec_parse(pattern@, i as int) {
                Ok(rest) => Ok(elements@ + rest),
                Err(e) => Err(e),
            }),
        decreases pattern@.len() - i,
    {
        let m = MatchingType::get_type(pattern, i)?;
        let w = m.len();
        proof {
            let rest = spec_parse(pattern@, i + w);
            if let Ok(tail) = rest {
                assert(elements@.push(m) + tail =~= elements@ + (seq![m] + tail));
            }
        }
        elements.push(m);
        i = i + w;
    }
    proof {
        assert(elements@ + Seq::<MatchingType>::empty() =~= elements@);
    }
    Ok(elements)
}

} // verus!
