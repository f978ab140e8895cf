use vstd::prelude::*;

use crate::error::PatternError;
use crate::matcher::START_ANCHOR;

verus! {

/// Whether the listed bytes `set` are tested for absence rather than presence.
pub open spec fn is_negated(g: Seq<u8>) -> bool {
    g.len() > 0 && g[0] == START_ANCHOR
}

/// The bytes a group lists, without its leading `^`.
pub open spec fn group_members(g: Seq<u8>) -> Seq<u8> {
    if is_negated(g) {
        g.subrange(1, g.len() as int)
    } else {
        g
    }
}

/// Whether some byte of `set` occurs in `line`.
pub open spec fn some_present(line: Seq<u8>, set: Seq<u8>) -> bool {
    exists|j: int| 0 <= j < set.len() && line.contains(#[trigger] set[j])
}

/// Whether some byte of `set` does not occur in `line`.
pub open spec fn some_absent(line: Seq<u8>, set: Seq<u8>) -> bool {
    exists|j: int| 0 <= j < set.len() && !line.contains(#[trigger] set[j])
}

/// The group `[g]` tested against the whole line: a plain group holds when
/// some listed byte occurs in the line; a negated one (`[^g]`) holds when some
/// listed byte does not. A group that lists no byte is rejected.
pub open spec fn spec_match_group(line: Seq<u8>, g: Seq<u8>) -> Result<bool, PatternError> {
    if group_members(g).len() == 0 {
        Err(PatternError::EmptyGroup)
    } else if is_negated(g) {
        Ok(some_absent(line, group_members(g)))
    } else {
        Ok(some_present(line, group_members(g)))
    }
}

/// Whether byte `b` occurs in `line`.
pub fn contains_byte(line: &[u8], b: u8) -> (r: bool)
    ensures
        r == line@.contains(b),
{
    let mut i: usize = 0;
    while i < line.len()
        invariant
            i <= line@.len(),
            forall|t: int| 0 <= t < i ==> line@[t] != b,
        decreases line@.len() - i,
    {
        if line[i] == b {
            return true;
        }
        i = i + 1;
    }
    false
}

/// Tests the content `pattern` of a bracket group (the bytes between `[` and
/// `]`) against the whole line.
pub fn match_match_group(input_line: &[u8], pattern: &[u8]) -> (r: Result<bool, PatternError>)
    ensures
        r == spec_match_group(input_line@, pattern@),
{
    let is_negative = pattern.len() > 0 && pattern[0] == START_ANCHOR;
    let skip: usize = if is_negative { 1 } else { 0 };
    let ghost set = group_members(pattern@);
    if pattern.len() == skip {
        return Err(PatternError::EmptyGroup);
    }
    let mut j: usize = skip;
    while j < pattern.len()
        invariant
            skip <= j <= pattern@.len(),
            set == group_members(pattern@),
            is_negative == is_negated(pattern@),
            set.len() == pattern@.len() - skip,
            forall|t: int| 0 <= t < set.len() ==> #[trigger] set[t] == pattern@[t + skip],
            forall|t: int| 0 <= t < j - skip ==> input_line@.contains(#[trigger] set[t]) == is_negative,
        decreases pattern@.len() - j,
    {
        if contains_byte(input_line, pattern[j]) != is_negative {
            assert(input_line@.contains(set[j - skip]) != is_negative);
            return Ok(true);
        }
        assert(set[j - skip] == pattern@[j as int]);
        j = j + 1;
    }
    Ok(false)
}

} // verus!
