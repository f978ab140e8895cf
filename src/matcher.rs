use vstd::prelude::*;

use vstd::string::StringSliceAdditionalSpecFns;

use crate::element::{parse_pattern, spec_parse, MatchingType};
use crate::error::PatternError;
use crate::group::{match_match_group, spec_match_group};
use crate::outcome::MatchResult;

verus! {

/// The byte that anchors a pattern to the start of the line.
pub const START_ANCHOR: u8 = 94;

/// The byte that anchors a pattern to the end of the line.
pub const END_ANCHOR: u8 = 36;

/// The byte that opens a bracket group.
pub const GROUP_OPEN: u8 = 91;

/// The byte that closes a bracket group.
pub const GROUP_CLOSE: u8 = 93;

/// Where the elements `ms[k..]`, run one after another from offset `i` of
/// `s`, stop consuming input; `None` where a step fails.
pub open spec fn spec_match_end(ms: Seq<MatchingType>, k: int, s: Seq<u8>, i: int) -> Option<int>
    decreases ms.len() - k,
{
    if k < 0 || k >= ms.len() {
        Some(i)
    } else {
        match ms[k].spec_step(s, i) {
            None => None,
            Some(n) => spec_match_end(ms, k + 1, s, i + n),
        }
    }
}

/// Whether all the elements match one after another from offset `i` of `s`.
pub open spec fn matches_at(ms: Seq<MatchingType>, s: Seq<u8>, i: int) -> bool {
    spec_match_end(ms, 0, s, i) is Some
}

/// Runs the elements one after another from offset `from` of the input, each
/// step taking what it matched; returns where the match ends, or `None` at the
/// first step that fails. No step is ever retried with less input.
pub fn match_characters_exact(input: &[u8], from: usize, elements: &Vec<MatchingType>) -> (r:
    Option<usize>)
    requires
        from <= input@.len(),
    ensures
        match r {
            Some(end) => spec_match_end(elements@, 0, input@, from as int) == Some(end as int)
                && end <= input@.len(),
            None => spec_match_end(elements@, 0, input@, from as int) is None,
        },
{
    let mut input_index: usize = from;
    let mut k: usize = 0;
    while k < elements.len()
        invariant
            from <= input_index <= input.len(),
            k <= elements@.len(),
            spec_match_end(elements@, 0, input@, from as int) == spec_match_end(
                elements@,
                k as int,
                input@,
                input_index as int,
            ),
        decreases elements@.len() - k,
    {
        let step = elements[k].matches(input, input_index);
        match step {
            MatchResult::Positive(result) => {
                input_index = input_index + result.input_chars;
            },
            MatchResult::Negative => {
                return None;
            },
        }
        k = k + 1;
    }
    Some(input_index)
}

/// Tries the elements at every start offset of the line, left to right.
pub fn match_characters_iterate(input: &[u8], elements: &Vec<MatchingType>) -> (r: bool)
    ensures
        r == exists|i: int| 0 <= i < input@.len() && #[trigger] matches_at(elements@, input@, i),
{
    let mut i: usize = 0;
    while i < input.len()
        invariant
            i <= input@.len(),
            forall|j: int| 0 <= j < i ==> !#[trigger] matches_at(elements@, input@, j),
        decreases input@.len() - i,
    {
        if match_characters_exact(input, i, elements).is_some() {
            assert(matches_at(elements@, input@, i as int));
            return true;
        }
        i = i + 1;
    }
    false
}

/// Whether the pattern starts with `^`.
pub open spec fn has_start_anchor(p: Seq<u8>) -> bool {
    p.len() > 0 && p[0] == START_ANCHOR
}

/// Whether the pattern ends with `$`.
pub open spec fn has_end_anchor(p: Seq<u8>) -> bool {
    p.len() > 0 && p[p.len() - 1] == END_ANCHOR
}

/// The pattern without its anchors.
pub open spec fn anchored_body(p: Seq<u8>) -> Seq<u8> {
    p.subrange(
        if has_start_anchor(p) {
            1
        } else {
            0
        },
        if has_end_anchor(p) {
            p.len() - 1
        } else {
            p.len() as int
        },
    )
}

/// An element pattern against a line. With `^` the elements must match from
/// the first byte; with `$` they must match from the offset that leaves as
/// many bytes as the unanchored pattern has, and a shorter line fails; with
/// both they must match from the first byte and consume the whole line; with
/// neither, some start offset of the line must give a match.
pub open spec fn spec_match_characters(line: Seq<u8>, p: Seq<u8>) -> Result<bool, PatternError> {
    let body = anchored_body(p);
    match spec_parse(body, 0) {
        Err(e) => Err(e),
        Ok(ms) => Ok(
            if has_start_anchor(p) && has_end_anchor(p) {
                spec_match_end(ms, 0, line, 0) == Some(line.len() as int)
            } else if has_start_anchor(p) {
                matches_at(ms, line, 0)
            } else if has_end_anchor(p) {
                body.len() <= line.len() && matches_at(ms, line, line.len() - body.len())
            } else {
                exists|i: int| 0 <= i < line.len() && #[trigger] matches_at(ms, line, i)
            },
        ),
    }
}

/// Whether the whole pattern is a bracket group `[...]`.
pub open spec fn is_group(p: Seq<u8>) -> bool {
    p.len() >= 2 && p[0] == GROUP_OPEN && p[p.len() - 1] == GROUP_CLOSE
}

/// The result of matching pattern `p` against `line`, both as bytes.
pub open spec fn spec_match_pattern(line: Seq<u8>, p: Seq<u8>) -> Result<bool, PatternError> {
    if p.len() == 0 {
        Err(PatternError::EmptyPattern)
    } else if is_group(p) {
        spec_match_group(line, p.subrange(1, p.len() - 1))
    } else {
        spec_match_characters(line, p)
    }
}

/// Strips the anchors of an element pattern, classifies the rest, and runs
/// the exact matcher once (anchored) or at every start offset.
pub fn match_characters(input_line: &[u8], pattern: &[u8]) -> (r: Result<bool, PatternError>)
    requires
        pattern@.len() > 0,
    ensures
        r == spec_match_characters(input_line@, pattern@),
{
    let n = pattern.len();
    let start = pattern[0] == START_ANCHOR;
    let end = pattern[n - 1] == END_ANCHOR;
    let lo: usize = if start { 1 } else { 0 };
    let hi: usize = if end { n - 1 } else { n };
    let body = &pattern[lo..hi];
    let elements = parse_pattern(body)?;
    if start && end {
        match match_characters_exact(input_line, 0, &elements) {
            Some(stop) => Ok(stop == input_line.len()),
            None => Ok(false),
        }
    } else if start {
        Ok(match_characters_exact(input_line, 0, &elements).is_some())
    } else if end {
        if input_line.len() < body.len() {
            Ok(false)
        } else {
            let from = input_line.len() - body.len();
            Ok(match_characters_exact(input_line, from, &elements).is_some())
        }
    } else {
        Ok(match_characters_iterate(input_line, &elements))
    }
}

/// Matches `pattern` against `input_line`. A pattern wrapped whole in `[` and
/// `]` is a group tested against the whole line; any other is a sequence of
/// elements with optional `^` and `$` anchors. Fails when the pattern is empty,
/// holds an escape other than `\w` or `\d`, a quantifier with nothing before
/// it, or an empty group.
pub fn match_pattern(input_line: &str, pattern: &str) -> (r: Result<bool, PatternError>)
    ensures
        r == spec_match_pattern(input_line.spec_bytes(), pattern.spec_bytes()),
{
    let line = input_line.as_bytes();
    let p = pattern.as_bytes();
    let n = p.len();
    if n == 0 {
        Err(PatternError::EmptyPattern)
    } else if n >= 2 && p[0] == GROUP_OPEN && p[n - 1] == GROUP_CLOSE {
        match_match_group(line, &p[1..n - 1])
    } else {
        match_characters(line, p)
    }
}

} // verus!
