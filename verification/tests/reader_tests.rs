use rustlog::matcher::LineMatcher;
use rustlog::reader::{
    follow_line, forward_line, next_idle_ms, scan_step, select_line, Follower, PollAction, MAX_IDLE_MS,
    START_IDLE_MS,
};

#[test]
fn backoff_doubles_to_cap() {
    let mut f = Follower::new();
    let mut waits = Vec::new();
    for _ in 0..9 {
        match f.step(None, None) {
            PollAction::Sleep(ms) => waits.push(ms),
            other => panic!("unexpected {other:?}"),
        }
    }
    assert_eq!(waits, vec![8, 16, 32, 64, 128, 256, 512, 512, 512]);
}

#[test]
fn data_resets_backoff() {
    let mut f = Follower::new();
    f.step(None, None);
    f.step(None, None);
    assert_eq!(f.idle_ms(), 32);
    assert_eq!(f.step(Some("x\n"), None), PollAction::Emit("x".into()));
    assert_eq!(f.idle_ms(), START_IDLE_MS);
    assert_eq!(f.step(Some("   \n"), None), PollAction::Emit(String::new()));
    assert_eq!(f.step(None, None), PollAction::Sleep(8));
}

#[test]
fn next_idle_values() {
    assert_eq!(next_idle_ms(8), 16);
    assert_eq!(next_idle_ms(255), 510);
    assert_eq!(next_idle_ms(256), MAX_IDLE_MS);
    assert_eq!(next_idle_ms(u64::MAX), MAX_IDLE_MS);
}

#[test]
fn follower_filters_lines() {
    let m = LineMatcher::keyword("ERROR");
    let mut f = Follower::new();
    assert_eq!(f.step(Some("INFO: ok\n"), Some(&m)), PollAction::Skip);
    assert_eq!(
        f.step(Some("ERROR: something went wrong\r\n"), Some(&m)),
        PollAction::Emit("ERROR: something went wrong".into())
    );
}

#[test]
fn scan_reads_until_end() {
    let m = LineMatcher::keyword("KEEP");
    assert_eq!(scan_step(Some("SKIP\n"), Some(&m)), PollAction::Skip);
    assert_eq!(scan_step(Some("KEEP\n"), Some(&m)), PollAction::Emit("KEEP".into()));
    assert_eq!(scan_step(None, Some(&m)), PollAction::Finish);
}

#[test]
fn forward_line_drops_blank_lines_even_without_filter() {
    assert_eq!(forward_line("\n", None), None);
    assert_eq!(forward_line("  \t\n", None), None);
    assert_eq!(forward_line("  a  \n", None), Some("  a".to_string()));
}

#[test]
fn select_line_keeps_blank_lines_when_matcher_accepts_them() {
    let all = LineMatcher::from_options(vec![], false, rustlog::matcher::MatchMode::Any).unwrap();
    assert_eq!(select_line("\n", &all), Some(String::new()));
    let kw = LineMatcher::keyword("ERROR");
    assert_eq!(select_line("ERROR: x \n", &kw), Some("ERROR: x".to_string()));
    assert_eq!(select_line("INFO\n", &kw), None);
}

#[test]
fn follower_sends_blank_lines_without_filter() {
    let mut f = Follower::new();
    assert_eq!(f.step(Some("\n"), None), PollAction::Emit(String::new()));
    assert_eq!(f.step(Some(" \t\r\n"), None), PollAction::Emit(String::new()));
    let m = LineMatcher::from_options(vec![], false, rustlog::matcher::MatchMode::Any).unwrap();
    assert_eq!(f.step(Some("\n"), Some(&m)), PollAction::Skip);
    assert_eq!(follow_line("\n", None), Some(String::new()));
}

#[test]
fn follower_waits_for_complete_lines() {
    let mut f = Follower::whole_lines();
    assert_eq!(f.step(Some("ERROR: new"), None), PollAction::Skip);
    assert_eq!(f.step(None, None), PollAction::Sleep(8));
    assert_eq!(f.step(Some(" cra"), None), PollAction::Skip);
    assert_eq!(f.step(Some("sh\n"), None), PollAction::Emit("ERROR: new crash".into()));
    assert_eq!(f.step(Some("next\n"), None), PollAction::Emit("next".into()));
}

#[test]
fn follower_filters_the_whole_line() {
    let m = LineMatcher::keyword("ERROR");
    let mut f = Follower::whole_lines();
    assert_eq!(f.step(Some("ERR"), Some(&m)), PollAction::Skip);
    assert_eq!(f.step(Some("OR: x\n"), Some(&m)), PollAction::Emit("ERROR: x".into()));
    assert_eq!(f.step(Some("INFO\n"), Some(&m)), PollAction::Skip);
}

#[test]
fn async_style_follower_sends_each_read_at_once() {
    let mut f = Follower::new();
    assert_eq!(f.step(Some("ERROR: new"), None), PollAction::Emit("ERROR: new".into()));
    assert_eq!(f.step(Some(" crash\n"), None), PollAction::Emit(" crash".into()));
    let m = LineMatcher::keyword("ERROR");
    assert_eq!(f.step(Some("ERR"), Some(&m)), PollAction::Skip);
    assert_eq!(f.step(Some("OR: x\n"), Some(&m)), PollAction::Skip);
}
