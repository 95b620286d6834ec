use rustlog::filter::{filter_lines, line_matches};

#[test]
fn test_filter_lines() {
    let lines = vec![
        "INFO: Start".to_string(),
        "ERROR: Fail".to_string(),
        "WARN: Warn".to_string(),
    ];
    let result = filter_lines(lines, "ERROR");
    assert_eq!(result, vec!["ERROR: Fail"]);
}

#[test]
fn test_filter_no_match() {
    let lines = vec!["INFO: Start".to_string(), "WARN: Warn".to_string()];
    let result = filter_lines(lines, "FATAL");
    assert!(result.is_empty());
}

#[test]
fn filter_keeps_order_and_duplicates() {
    let lines = vec![
        "b ERR 2".to_string(),
        "a ok".to_string(),
        "c ERR 1".to_string(),
        "b ERR 2".to_string(),
    ];
    let result = filter_lines(lines, "ERR");
    assert_eq!(result, vec!["b ERR 2", "c ERR 1", "b ERR 2"]);
}

#[test]
fn empty_keyword_keeps_every_line() {
    let lines = vec!["".to_string(), "x".to_string()];
    assert_eq!(filter_lines(lines, ""), vec!["", "x"]);
}

#[test]
fn line_matches_is_substring_search() {
    assert!(line_matches("pre ERROR post", "ERR"));
    assert!(line_matches("ERR", "ERR"));
    assert!(!line_matches("ER", "ERR"));
    assert!(!line_matches("E R R", "ERR"));
    assert!(line_matches("anything", ""));
    assert!(line_matches("", ""));
    assert!(!line_matches("", "x"));
    assert!(line_matches("aaab", "aab"));
    assert!(line_matches("log: 日本語 here", "日本語"));
    assert!(!line_matches("log: 日本 here", "日本語"));
}

#[test]
fn filter_lines_agrees_with_keyword_matcher() {
    let lines: Vec<String> = ["a ERR", "ok", "ERRx", "", "E R R"].iter().map(|s| s.to_string()).collect();
    let m = rustlog::matcher::LineMatcher::keyword("ERR");
    let expected: Vec<String> = lines.iter().filter(|l| m.matches_line(l)).cloned().collect();
    assert_eq!(filter_lines(lines, "ERR"), expected);
}
