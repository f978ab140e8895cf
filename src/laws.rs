use vstd::prelude::*;

use crate::class::{CharacterType, CHARACTER_CLASS};
use crate::element::{spec_parse, MatchingType, ONE_OR_MORE, ZERO_OR_ONE};
use crate::error::PatternError;
use crate::group::is_negated;
use crate::matcher::{
    anchored_body, has_start_anchor, is_group, matches_at, spec_match_end, spec_match_pattern,
    END_ANCHOR, START_ANCHOR,
};

verus! {

/// A pattern of one literal byte `c` (any byte but `\`, `^`, `$`, `+` and
/// `?`) matches a line exactly when the line contains `c`.
pub proof fn lemma_single_literal(line: Seq<u8>, c: u8)
    requires
        c != CHARACTER_CLASS,
        c != START_ANCHOR,
        c != END_ANCHOR,
        c != ONE_OR_MORE,
        c != ZERO_OR_ONE,
    ensures
        spec_match_pattern(line, seq![c]) == Ok::<bool, PatternError>(line.contains(c)),
{
    let p = seq![c];
    let m = MatchingType::Simple(CharacterType::Character(c));
    assert(anchored_body(p) =~= p);
    assert(spec_parse(p, 1) == Ok::<Seq<MatchingType>, PatternError>(Seq::empty()));
    assert(spec_parse(p, 0) == Ok::<Seq<MatchingType>, PatternError>(seq![m]));
    let ms = seq![m];
    assert forall|i: int| 0 <= i < line.len() implies #[trigger] matches_at(ms, line, i) == (line[i]
        == c) by {
        if line[i] == c {
            assert(spec_match_end(ms, 1, line, i + 1) == Some(i + 1));
        }
    }
    if line.contains(c) {
        let i = choose|i: int| 0 <= i < line.len() && line[i] == c;
        assert(matches_at(ms, line, i));
    }
}

/// Matching is a function of the line and the pattern alone: two calls on the
/// same inputs give the same result.
pub proof fn lemma_repeatable(
    line: Seq<u8>,
    pattern: Seq<u8>,
    first: Result<bool, PatternError>,
    second: Result<bool, PatternError>,
)
    requires
        first == spec_match_pattern(line, pattern),
        second == spec_match_pattern(line, pattern),
    ensures
        first == second,
{
}

/// The empty line never matches a pattern that needs at least one byte of
/// input: one without a `^` anchor, whose unanchored part is not empty, and
/// that is not a negated group.
pub proof fn lemma_empty_line(p: Seq<u8>)
    requires
        !has_start_anchor(p),
        anchored_body(p).len() > 0,
        !(is_group(p) && is_negated(p.subrange(1, p.len() - 1))),
    ensures
        spec_match_pattern(Seq::empty(), p) != Ok::<bool, PatternError>(true),
{
}

} // verus!
