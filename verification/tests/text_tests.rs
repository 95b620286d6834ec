use rustlog::text::{str_contains, str_starts_with, trim_end_str, trim_str};

#[test]
fn trims() {
    assert_eq!(trim_str("  a b  "), "a b");
    assert_eq!(trim_str(""), "");
    assert_eq!(trim_str(" \t\n"), "");
    assert_eq!(trim_end_str("  a \r\n"), "  a");
    assert_eq!(trim_end_str("x"), "x");
    assert_eq!(trim_str("\u{2028}é\u{205f}"), "é");
}

#[test]
fn matches_std_on_samples() {
    let samples = ["", " ", "a", " a ", "\u{85}x\u{3000}", "日本 語\t", "\u{200b}z"];
    for s in samples {
        assert_eq!(trim_str(s), s.trim());
        assert_eq!(trim_end_str(s), s.trim_end());
        for k in ["", "a", " ", "語", "本 語"] {
            assert_eq!(str_contains(s, k), s.contains(k));
            assert_eq!(str_starts_with(s, k), s.starts_with(k));
        }
    }
}

#[test]
fn trimming_twice_changes_nothing_more() {
    for s in ["  a  ", "\n\tx y\r\n", "", "   ", "é"] {
        assert_eq!(trim_str(&trim_str(s)), trim_str(s));
        assert_eq!(trim_end_str(&trim_end_str(s)), trim_end_str(s));
    }
}
