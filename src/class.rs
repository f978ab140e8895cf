use vstd::prelude::*;

use crate::error::PatternError;
use crate::outcome::MatchResult;

verus! {

/// The byte that introduces a character class in a pattern.
pub const CHARACTER_CLASS: u8 = 92;

/// The byte after `\` that selects the alphanumeric class.
pub const CHARACTER_ALPHA: u8 = 119;

/// The byte after `\` that selects the digit class.
pub const CHARACTER_DIGIT: u8 = 100;

/// An ASCII digit `0`..`9`.
pub open spec fn is_digit(b: u8) -> bool {
    48 <= b <= 57
}

/// An ASCII letter or digit.
pub open spec fn is_alphanumeric(b: u8) -> bool {
    is_digit(b) || (65 <= b <= 90) || (97 <= b <= 122)
}

/// A set of bytes named by an escape sequence.
#[derive(Clone, Copy, Debug, PartialEq, Eq, Structural)]
pub enum CharacterClass {
    /// `\w`: every ASCII letter or digit.
    Alpha,
    /// `\d`: every ASCII digit.
    Digit,
}

/// One classified pattern element: a literal byte or a class.
#[derive(Clone, Copy, Debug, PartialEq, Eq, Structural)]
pub enum CharacterType {
    /// Matches exactly this byte.
    Character(u8),
    /// Matches every byte of the class.
    Class(CharacterClass),
}

impl CharacterClass {
    /// Whether the class holds byte `b`.
    pub open spec fn accepts(self, b: u8) -> bool {
        match self {
            CharacterClass::Alpha => is_alphanumeric(b),
            CharacterClass::Digit => is_digit(b),
        }
    }

    /// The class that the byte after a `\` selects.
    pub open spec fn spec_from_escape(b: u8) -> Result<CharacterType, PatternError> {
        if b == CHARACTER_ALPHA {
            Ok(CharacterType::Class(CharacterClass::Alpha))
        } else if b == CHARACTER_DIGIT {
            Ok(CharacterType::Class(CharacterClass::Digit))
        } else {
            Err(PatternError::UnrecognizedEscape)
        }
    }

    /// Classifies the byte that follows a `\`.
    pub fn get_type(pattern: u8) -> (r: Result<CharacterType, PatternError>)
        ensures
            r == Self::spec_from_escape(pattern),
    {
        match pattern {
            CHARACTER_ALPHA => Ok(CharacterType::Class(CharacterClass::Alpha)),
            CHARACTER_DIGIT => Ok(CharacterType::Class(CharacterClass::Digit)),
            _ => Err(PatternError::UnrecognizedEscape),
        }
    }

    /// Tests one input byte; a success consumes the two pattern bytes of the
    /// escape and one input byte.
    pub fn matches(&self, input: u8) -> (r: MatchResult)
        ensures
            r == MatchResult::spec_new(self.accepts(input), 2, 1),
    {
        let result = match self {
            CharacterClass::Alpha => is_ascii_alphanumeric(input),
            CharacterClass::Digit => is_ascii_digit(input),
        };
        MatchResult::new(result, 2, 1)
    }
}

fn is_ascii_digit(b: u8) -> (r: bool)
    ensures
        r == is_digit(b),
{
    48 <= b && b <= 57
}

fn is_ascii_alphanumeric(b: u8) -> (r: bool)
    ensures
        r == is_alphanumeric(b),
{
    is_ascii_digit(b) || (65 <= b && b <= 90) || (97 <= b && b <= 122)
}

/// What a pattern element at offset `i` of `p` is, read from its first one or
/// two bytes.
pub open spec fn spec_classify(p: Seq<u8>, i: int) -> Result<CharacterType, PatternError> {
    if p[i] == CHARACTER_CLASS {
        if i + 1 < p.len() {
            CharacterClass::spec_from_escape(p[i + 1])
        } else {
            Err(PatternError::UnrecognizedEscape)
        }
    } else {
        Ok(CharacterType::Character(p[i]))
    }
}

impl CharacterType {
    /// Whether the element matches byte `b`.
    pub open spec fn accepts(self, b: u8) -> bool {
        match self {
            CharacterType::Character(c) => b == c,
            CharacterType::Class(class) => class.accepts(b),
        }
    }

    /// How many pattern bytes encode the element.
    pub open spec fn spec_len(self) -> usize {
        match self {
            CharacterType::Character(_) => 1,
            CharacterType::Class(_) => 2,
        }
    }

    /// The number of consecutive bytes of `s`, from offset `i` on, that the
    /// element matches.
    pub open spec fn run_length(self, s: Seq<u8>, i: int) -> nat
        decreases s.len() - i,
    {
        if 0 <= i < s.len() && self.accepts(s[i]) {
            1 + self.run_length(s, i + 1)
        } else {
            0
        }
    }

    /// Classifies the element that starts at offset `at` of the pattern.
    pub fn get_type(pattern: &[u8], at: usize) -> (r: Result<CharacterType, PatternError>)
        requires
            at < pattern@.len(),
        ensures
            r == spec_classify(pattern@, at as int),
    {
        if pattern[at] == CHARACTER_CLASS {
            if at + 1 < pattern.len() {
                CharacterClass::get_type(pattern[at + 1])
            } else {
                Err(PatternError::UnrecognizedEscape)
            }
        } else {
            Ok(CharacterType::Character(pattern[at]))
        }
    }

    /// Tests one input byte; a success consumes the element's pattern bytes and
    /// one input byte.
    pub fn matches(&self, input: u8) -> (r: MatchResult)
        ensures
            r == MatchResult::spec_new(self.accepts(input), self.spec_len(), 1),
    {
        match self {
            CharacterType::Character(c) => MatchResult::new(input == *c, 1, 1),
            CharacterType::Class(class) => class.matches(input),
        }
    }

    pub fn len(&self) -> (r: usize)
        ensures
            r == self.spec_len(),
    {
        match self {
            CharacterType::Character(_) => 1,
            CharacterType::Class(_) => 2,
        }
    }

    /// Counts the bytes of `input` from offset `at` on that the element
    /// matches, stopping at the first one it does not.
    pub fn match_count(&self, input: &[u8], at: usize) -> (r: usize)
        requires
            at <= input@.len(),
        ensures
            r == self.run_length(input@, at as int),
            at + r <= input@.len(),
            forall|j: int| at <= j < at + r ==> self.accepts(#[trigger] input@[j]),
            at + r < input@.len() ==> !self.accepts(input@[at + r]),
    {
        let mut k: usize = at;
        while k < input.len() && self.matches(input[k]).is_matching()
            invariant
                at <= k <= input@.len(),
                forall|j: int| at <= j < k ==> self.accepts(#[trigger] input@[j]),
                self.run_length(input@, at as int) == (k - at) + self.run_length(input@, k as int),
            decreases input@.len() - k,
        {
            k = k + 1;
        }
        k - at
    }
}

} // verus!
