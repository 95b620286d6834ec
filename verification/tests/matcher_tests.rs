use rustlog::matcher::{LineMatcher, MatchMode, MatcherError};

#[test]
fn empty_patterns_match_all() {
    let m = LineMatcher::from_options(vec![], false, MatchMode::Any).unwrap();
    assert!(m.matches_line("anything"));
    assert!(m.matches_line(""));
}

#[test]
fn keyword_contains() {
    let m = LineMatcher::keyword("ERR");
    assert!(m.matches_line("pre ERROR post"));
    assert!(!m.matches_line("ok"));
}

#[test]
fn substring_any_all() {
    let any = LineMatcher::from_options(vec!["a".into(), "b".into()], false, MatchMode::Any).unwrap();
    assert!(any.matches_line("ax"));
    assert!(any.matches_line("xb"));
    assert!(!any.matches_line("xy"));

    let all = LineMatcher::from_options(vec!["a".into(), "b".into()], false, MatchMode::All).unwrap();
    assert!(all.matches_line("ab"));
    assert!(!all.matches_line("a"));
}

#[test]
fn regex_any_invalid_pattern_errors() {
    let err = LineMatcher::from_options(vec!["(".into()], true, MatchMode::Any);
    assert!(err.is_err());
}

#[test]
fn regex_any_matches() {
    let m = LineMatcher::from_options(vec![r"\d{3}".into()], true, MatchMode::Any).unwrap();
    assert!(m.matches_line("code 500"));
    assert!(!m.matches_line("no digits"));
}

#[test]
fn utf8_patterns() {
    let m = LineMatcher::from_options(vec!["日本語".into()], false, MatchMode::Any).unwrap();
    assert!(m.matches_line("log: 日本語 here"));
    assert!(!m.matches_line("ascii only"));
}

#[test]
fn regex_all_mode() {
    let m = LineMatcher::from_options(
        vec![r"\bfoo\b".into(), r"\bbar\b".into()],
        true,
        MatchMode::All,
    )
    .unwrap();
    assert!(m.matches_line("foo and bar"));
    assert!(!m.matches_line("foo only"));
}

#[test]
fn first_invalid_regex_is_reported() {
    let err = LineMatcher::from_options(
        vec!["ok".into(), "(".into(), "[".into()],
        true,
        MatchMode::Any,
    );
    assert_eq!(err.err(), Some(MatcherError::InvalidRegex("(".to_string())));
}

#[test]
fn invalid_regex_text_is_fine_as_substring() {
    let m = LineMatcher::from_options(vec!["(".into()], false, MatchMode::Any).unwrap();
    assert!(m.matches_line("f(x)"));
    assert!(!m.matches_line("fx"));
}

#[test]
fn regex_is_not_substring() {
    let m = LineMatcher::from_options(vec!["a.c".into()], true, MatchMode::Any).unwrap();
    assert!(m.matches_line("abc"));
    assert!(!m.matches_line("a.x"));
    let s = LineMatcher::from_options(vec!["a.c".into()], false, MatchMode::Any).unwrap();
    assert!(!s.matches_line("abc"));
    assert!(s.matches_line("xa.cx"));
}

#[test]
fn all_mode_with_no_hits_rejects() {
    let all = LineMatcher::from_options(vec!["a".into(), "b".into()], false, MatchMode::All).unwrap();
    assert!(!all.matches_line("xyz"));
    assert!(!all.matches_line("b"));
}

#[test]
fn default_mode_is_any() {
    assert_eq!(MatchMode::default(), MatchMode::Any);
}

#[test]
fn clone_and_arc_keep_behaviour() {
    let m = LineMatcher::keyword("WARN");
    let c = m.clone();
    let a = m.arc();
    assert!(c.matches_line("WARN: x"));
    assert!(a.matches_line("WARN: x"));
    assert!(!a.matches_line("INFO"));
}

#[test]
fn all_accepts_no_more_than_any() {
    let pats = || vec!["a".to_string(), "b".to_string(), "c".to_string()];
    let any = LineMatcher::from_options(pats(), false, MatchMode::Any).unwrap();
    let all = LineMatcher::from_options(pats(), false, MatchMode::All).unwrap();
    for line in ["abc", "ab", "c", "", "xyz", "cba!"] {
        if all.matches_line(line) {
            assert!(any.matches_line(line));
        }
    }
    assert!(all.matches_line("cba!"));
    assert!(any.matches_line("c") && !all.matches_line("c"));
}

#[test]
fn single_pattern_modes_agree() {
    let any = LineMatcher::from_options(vec![r"^\w+:".into()], true, MatchMode::Any).unwrap();
    let all = LineMatcher::from_options(vec![r"^\w+:".into()], true, MatchMode::All).unwrap();
    for line in ["INFO: a", " INFO: a", "x", ""] {
        assert_eq!(any.matches_line(line), all.matches_line(line));
    }
}
