//! A small single-pattern line matcher.
//!
//! A pattern is either a bracket group (`[abc]`, `[^abc]`) tested against the
//! whole line, or a sequence of elements (a literal byte, `\d` or `\w`, each
//! optionally followed by `+` or `?`) with optional `^` and `$` anchors. The
//! engine works on bytes and commits greedily to each quantifier: it never
//! backtracks.

pub mod class;
pub mod element;
pub mod error;
pub mod group;
pub mod laws;
pub mod matcher;
pub mod outcome;

pub use class::{CharacterClass, CharacterType};
pub use element::MatchingType;
pub use error::PatternError;
pub use matcher::match_pattern;
pub use outcome::{MatchResult, PositiveMatchResult};
