use vstd::prelude::*;

verus! {

/// Why a pattern could not be used.
#[derive(Clone, Copy, Debug, PartialEq, Eq, Structural)]
pub enum PatternError {
    /// The pattern is empty.
    EmptyPattern,
    /// A `\` is followed by something other than `w` or `d`, or ends the pattern.
    UnrecognizedEscape,
    /// A bracket group lists no byte: `[]` or `[^]`.
    EmptyGroup,
    /// A `+` or `?` does not follow an element it could apply to.
    DanglingQuantifier,
}

} // verus!
