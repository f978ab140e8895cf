use grep::element::parse_pattern;
use grep::matcher::match_characters_exact;
use grep::{
    match_pattern, CharacterClass, CharacterType, MatchResult, MatchingType, PatternError,
    PositiveMatchResult,
};

#[test]
fn single_literal_matches_iff_line_contains_it() {
    assert_eq!(match_pattern("banana", "n"), Ok(true));
    assert_eq!(match_pattern("banana", "z"), Ok(false));
    assert_eq!(match_pattern("", "a"), Ok(false));
    assert_eq!(match_pattern("a]b", "]"), Ok(true));
    assert_eq!(match_pattern("ab", "["), Ok(false));
}

#[test]
fn repeated_calls_agree() {
    for (line, pattern) in [("3 dogs", "\\d \\w\\w\\ws"), ("cab", "[^abc]"), ("x", "\\q")] {
        assert_eq!(match_pattern(line, pattern), match_pattern(line, pattern));
    }
}

#[test]
fn empty_line_fails_cleanly() {
    assert_eq!(match_pattern("", "\\d+"), Ok(false));
    assert_eq!(match_pattern("", "dog$"), Ok(false));
    assert_eq!(match_pattern("", "^a"), Ok(false));
    assert_eq!(match_pattern("", "[abc]"), Ok(false));
    assert_eq!(match_pattern("", "\\w\\d"), Ok(false));
}

#[test]
fn empty_pattern_is_rejected() {
    assert_eq!(match_pattern("abc", ""), Err(PatternError::EmptyPattern));
}

#[test]
fn unknown_escape_is_rejected() {
    assert_eq!(match_pattern("abc", "\\x"), Err(PatternError::UnrecognizedEscape));
    assert_eq!(match_pattern("abc", "a\\"), Err(PatternError::UnrecognizedEscape));
    assert_eq!(match_pattern("", "a\\q"), Err(PatternError::UnrecognizedEscape));
    assert_eq!(match_pattern("zzz", "a\\q"), Err(PatternError::UnrecognizedEscape));
}

#[test]
fn empty_group_is_rejected() {
    assert_eq!(match_pattern("abc", "[]"), Err(PatternError::EmptyGroup));
    assert_eq!(match_pattern("abc", "[^]"), Err(PatternError::EmptyGroup));
}

#[test]
fn dangling_quantifier_is_rejected() {
    assert_eq!(match_pattern("abc", "+a"), Err(PatternError::DanglingQuantifier));
    assert_eq!(match_pattern("abc", "^?"), Err(PatternError::DanglingQuantifier));
    assert_eq!(match_pattern("aaa", "a++"), Err(PatternError::DanglingQuantifier));
}

#[test]
fn both_anchors_need_the_whole_line() {
    assert_eq!(match_pattern("dog", "^dog$"), Ok(true));
    assert_eq!(match_pattern("dogs", "^dog$"), Ok(false));
    assert_eq!(match_pattern("", "^$"), Ok(true));
    assert_eq!(match_pattern("a", "^$"), Ok(false));
    assert_eq!(match_pattern("aaab", "^a+b$"), Ok(true));
}

#[test]
fn end_anchor_tests_the_suffix_as_long_as_the_pattern() {
    assert_eq!(match_pattern("ab12", "\\d$"), Ok(true));
    assert_eq!(match_pattern("a1", "\\d$"), Ok(false));
    assert_eq!(match_pattern("og", "dog$"), Ok(false));
}

#[test]
fn quantifiers_are_greedy_without_backtracking() {
    assert_eq!(match_pattern("aaa", "a+a"), Ok(false));
    assert_eq!(match_pattern("caaats", "ca+ts"), Ok(true));
    assert_eq!(match_pattern("dogss", "dogs?"), Ok(false));
    assert_eq!(match_pattern("colour", "colou?r"), Ok(true));
    assert_eq!(match_pattern("color", "colou?r"), Ok(true));
}

#[test]
fn groups_test_the_listed_bytes() {
    assert_eq!(match_pattern("fox", "[xyz]"), Ok(true));
    assert_eq!(match_pattern("a", "[^ab]"), Ok(true));
    assert_eq!(match_pattern("a", "[^a]"), Ok(false));
    assert_eq!(match_pattern("", "[^a]"), Ok(true));
    assert_eq!(match_pattern("c", "[abc]"), Ok(true));
}

#[test]
fn word_class_is_ascii_letters_and_digits() {
    assert_eq!(match_pattern("_", "\\w"), Ok(false));
    assert_eq!(match_pattern("Z", "\\w"), Ok(true));
    assert_eq!(match_pattern("9", "\\w"), Ok(true));
    assert_eq!(match_pattern("x", "\\d"), Ok(false));
}

#[test]
fn classifying_elements() {
    assert_eq!(
        MatchingType::get_type(b"a+", 0),
        Ok(MatchingType::Multiple(CharacterType::Character(b'a')))
    );
    assert_eq!(
        MatchingType::get_type(b"x\\d?", 1),
        Ok(MatchingType::Optional(CharacterType::Class(CharacterClass::Digit)))
    );
    assert_eq!(
        MatchingType::get_type(b"\\wz", 0),
        Ok(MatchingType::Simple(CharacterType::Class(CharacterClass::Alpha)))
    );
    assert_eq!(CharacterClass::get_type(b'q'), Err(PatternError::UnrecognizedEscape));
    assert_eq!(MatchingType::Optional(CharacterType::Class(CharacterClass::Digit)).len(), 3);
}

#[test]
fn stepping_reports_consumed_amounts() {
    let digits = CharacterType::Class(CharacterClass::Digit);
    assert_eq!(digits.match_count(b"123ab", 0), 3);
    assert_eq!(digits.match_count(b"123ab", 3), 0);
    assert_eq!(
        MatchingType::Multiple(CharacterType::Character(b'a')).matches(b"baab", 1),
        MatchResult::Positive(PositiveMatchResult { pattern_chars: 2, input_chars: 2 })
    );
    assert_eq!(MatchingType::Simple(digits).matches(b"12", 2), MatchResult::Negative);
    assert_eq!(
        digits.matches(b'7'),
        MatchResult::Positive(PositiveMatchResult { pattern_chars: 2, input_chars: 1 })
    );
    assert!(!MatchResult::new(false, 1, 1).is_matching());
}

#[test]
fn exact_matcher_reports_where_it_stops() {
    let elements = parse_pattern(b"\\d+x?").unwrap();
    assert_eq!(elements.len(), 2);
    assert_eq!(match_characters_exact(b"a123xy", 1, &elements), Some(5));
    assert_eq!(match_characters_exact(b"a123xy", 0, &elements), None);
    assert_eq!(parse_pattern(b"a\\e"), Err(PatternError::UnrecognizedEscape));
}
