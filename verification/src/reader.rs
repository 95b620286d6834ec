//! What the file readers decide for each line they read, and how long they wait when a
//! followed file has no new data: 8 ms at first, doubling up to 512 ms, back to 8 ms on data.

use vstd::prelude::*;

use vstd::arithmetic::power2::{lemma2_to64, lemma_pow2_unfold, pow2};

use crate::matcher::{model_matches, LineMatcher};
use crate::text::{
    is_blank, law_trim_end_idempotent, law_trim_end_ignores_trailing_whitespace,
    lemma_trimmed_end_shape, trim_end_str, trimmed_end,
};

verus! {

/// Idle wait after a read that found data, in milliseconds.
pub const START_IDLE_MS: u64 = 8;

/// Longest idle wait, in milliseconds.
pub const MAX_IDLE_MS: u64 = 512;

/// The wait that follows a wait of `ms` with still no data: twice as long, at most 512 ms.
pub open spec fn next_idle(ms: u64) -> u64 {
    if ms as int * 2 >= MAX_IDLE_MS as int {
        MAX_IDLE_MS
    } else {
        (ms * 2) as u64
    }
}

/// The wait that follows a wait of `ms`.
pub fn next_idle_ms(ms: u64) -> (r: u64)
    ensures
        r == next_idle(ms),
{
    if ms >= MAX_IDLE_MS / 2 {
        MAX_IDLE_MS
    } else {
        ms * 2
    }
}

/// The line `for_each_matching_line` hands on for a raw line read from the file: the line
/// without its trailing whitespace (newline included), when the matcher accepts it.
pub open spec fn selected(raw: Seq<char>, m: crate::matcher::MatcherModel) -> Option<Seq<char>> {
    if model_matches(m, trimmed_end(raw)) {
        Some(trimmed_end(raw))
    } else {
        None
    }
}

/// The line a one-shot scan of a file sends for a raw line: the line without its trailing
/// whitespace, unless that is empty or a filter is given and refuses it.
pub open spec fn forwarded(raw: Seq<char>, filter: Option<crate::matcher::MatcherModel>) -> Option<
    Seq<char>,
> {
    let t = trimmed_end(raw);
    if t.len() == 0 {
        None
    } else {
        match filter {
            Some(m) => if model_matches(m, t) {
                Some(t)
            } else {
                None
            },
            None => Some(t),
        }
    }
}

/// The matcher a filter holds, if there is one.
pub open spec fn filter_model(filter: Option<&LineMatcher>) -> Option<crate::matcher::MatcherModel> {
    match filter {
        Some(m) => Some(m@),
        None => None,
    }
}

/// The text ends a line: its last character is a newline.
pub open spec fn ends_line(raw: Seq<char>) -> bool {
    raw.len() > 0 && raw.last() == '\n'
}

/// The line a follower sends for a complete line `line`: without a filter, every line,
/// as its text without trailing whitespace (blank lines included); with a filter, only a
/// non-blank line the filter accepts.
pub open spec fn followed(line: Seq<char>, filter: Option<crate::matcher::MatcherModel>) -> Option<
    Seq<char>,
> {
    let t = trimmed_end(line);
    match filter {
        None => Some(t),
        Some(m) => if t.len() > 0 && model_matches(m, t) {
            Some(t)
        } else {
            None
        },
    }
}

/// A read completes a line: every read does for a follower that sends what it reads at once;
/// for one that waits for whole lines, only a read ending in a newline does.
pub open spec fn completes(whole_lines: bool, raw: Seq<char>) -> bool {
    !whole_lines || ends_line(raw)
}

/// The partial line a follower holds after reading `raw` while holding `pending`: nothing
/// once the read completes the line, otherwise everything read so far.
pub open spec fn pending_after(whole_lines: bool, pending: Seq<char>, raw: Seq<char>) -> Seq<
    char,
> {
    if completes(whole_lines, raw) {
        Seq::empty()
    } else {
        pending + raw
    }
}

/// The line a follower sends after reading `raw` while holding `pending`: only a completed
/// line is sent, as one line.
pub open spec fn sent_after(
    whole_lines: bool,
    pending: Seq<char>,
    raw: Seq<char>,
    filter: Option<crate::matcher::MatcherModel>,
) -> Option<Seq<char>> {
    if completes(whole_lines, raw) {
        followed(pending + raw, filter)
    } else {
        None
    }
}

/// Whether `raw` ends with a newline.
pub fn ends_with_newline(raw: &str) -> (b: bool)
    ensures
        b == ends_line(raw@),
{
    let v = crate::text::chars_of(raw);
    v.len() > 0 && v[v.len() - 1] == '\n'
}

/// The line a follower sends for the complete line `line`, if any.
pub fn follow_line(line: &str, filter: Option<&LineMatcher>) -> (r: Option<String>)
    ensures
        crate::text::opt_view(r) == followed(line@, filter_model(filter)),
{
    let t = trim_end_str(line);
    match filter {
        None => Some(t),
        Some(m) => {
            if t.as_str().unicode_len() > 0 && m.matches_line(t.as_str()) {
                Some(t)
            } else {
                None
            }
        },
    }
}

/// The line `for_each_matching_line` hands on for `raw`, if any.
pub fn select_line(raw: &str, matcher: &LineMatcher) -> (r: Option<String>)
    ensures
        crate::text::opt_view(r) == selected(raw@, matcher@),
{
    let t = trim_end_str(raw);
    if matcher.matches_line(t.as_str()) {
        Some(t)
    } else {
        None
    }
}

/// The line a one-shot scan sends for `raw`, if any.
pub fn forward_line(raw: &str, filter: Option<&LineMatcher>) -> (r: Option<String>)
    ensures
        crate::text::opt_view(r) == forwarded(raw@, filter_model(filter)),
{
    let t = trim_end_str(raw);
    if t.as_str().unicode_len() == 0 {
        return None;
    }
    match filter {
        Some(m) => {
            if m.matches_line(t.as_str()) {
                Some(t)
            } else {
                None
            }
        },
        None => Some(t),
    }
}

/// What a reader does next.
#[derive(Debug, PartialEq, Eq)]
pub enum PollAction {
    /// Send this line on.
    Emit(String),
    /// Read the next line.
    Skip,
    /// No new data: wait this many milliseconds, then read again.
    Sleep(u64),
    /// The file is done.
    Finish,
}

/// What `action` says, as data.
pub open spec fn action_is(action: PollAction, line: Option<Seq<char>>) -> bool {
    match line {
        Some(l) => action matches PollAction::Emit(s) && s@ == l,
        None => action is Skip,
    }
}

/// A follower's state as data: the next idle wait, whether it waits for whole lines, and the
/// partial line read so far.
pub struct FollowerModel {
    pub idle_ms: u64,
    pub whole_lines: bool,
    pub pending: Seq<char>,
}

/// The decisions of a reader that follows a growing file (`tail -f`). One made by `new` sends
/// each read at once; one made by `whole_lines` sends only complete lines, holding a line
/// that has no newline yet until the rest arrives.
#[derive(Debug)]
pub struct Follower {
    idle_ms: u64,
    whole_lines: bool,
    pending: String,
}

impl View for Follower {
    type V = FollowerModel;

    closed spec fn view(&self) -> FollowerModel {
        FollowerModel { idle_ms: self.idle_ms, whole_lines: self.whole_lines, pending: self.pending@ }
    }
}

impl Follower {
    #[verifier::type_invariant]
    closed spec fn inv(self) -> bool {
        &&& START_IDLE_MS <= self.idle_ms <= MAX_IDLE_MS
        &&& !self.whole_lines ==> self.pending@.len() == 0
    }

    /// A follower that has just attached to the file and sends each read at once.
    pub fn new() -> (f: Self)
        ensures
            f@.idle_ms == START_IDLE_MS,
            !f@.whole_lines,
            f@.pending.len() == 0,
    {
        Follower { idle_ms: START_IDLE_MS, whole_lines: false, pending: String::new() }
    }

    /// A follower that has just attached to the file and sends only complete lines.
    pub fn whole_lines() -> (f: Self)
        ensures
            f@.idle_ms == START_IDLE_MS,
            f@.whole_lines,
            f@.pending.len() == 0,
    {
        Follower { idle_ms: START_IDLE_MS, whole_lines: true, pending: String::new() }
    }

    /// The wait the next read without data will cause.
    pub fn idle_ms(&self) -> (ms: u64)
        ensures
            ms == self@.idle_ms,
            START_IDLE_MS <= ms <= MAX_IDLE_MS,
    {
        proof {
            use_type_invariant(self);
        }
        self.idle_ms
    }

    /// Decide on one read: `Some(raw)` is text read (up to and including a newline, or what
    /// there is at the end of the file), `None` a read that found no new data.
    /// Data resets the wait to 8 ms; a read that completes a line sends that whole line as
    /// `follow_line` decides, any other read is held. No data sleeps for the current wait
    /// and doubles it, up to 512 ms.
    pub fn step(&mut self, read: Option<&str>, filter: Option<&LineMatcher>) -> (action: PollAction)
        ensures
            START_IDLE_MS <= final(self)@.idle_ms <= MAX_IDLE_MS,
            final(self)@.whole_lines == old(self)@.whole_lines,
            !final(self)@.whole_lines ==> final(self)@.pending.len() == 0,
            match read {
                Some(raw) => {
                    &&& final(self)@.idle_ms == START_IDLE_MS
                    &&& final(self)@.pending == pending_after(
                        old(self)@.whole_lines,
                        old(self)@.pending,
                        raw@,
                    )
                    &&& action_is(
                        action,
                        sent_after(
                            old(self)@.whole_lines,
                            old(self)@.pending,
                            raw@,
                            filter_model(filter),
                        ),
                    )
                },
                None => {
                    &&& action == PollAction::Sleep(old(self)@.idle_ms)
                    &&& final(self)@.idle_ms == next_idle(old(self)@.idle_ms)
                    &&& final(self)@.pending == old(self)@.pending
                },
            },
    {
        proof {
            use_type_invariant(&*self);
        }
        match read {
            Some(raw) => {
                self.idle_ms = START_IDLE_MS;
                let mut text = String::new();
                std::mem::swap(&mut text, &mut self.pending);
                text.append(raw);
                if !self.whole_lines || ends_with_newline(raw) {
                    match follow_line(text.as_str(), filter) {
                        Some(l) => PollAction::Emit(l),
                        None => PollAction::Skip,
                    }
                } else {
                    self.pending = text;
                    PollAction::Skip
                }
            },
            None => {
                let wait = self.idle_ms;
                self.idle_ms = next_idle_ms(wait);
                PollAction::Sleep(wait)
            },
        }
    }
}

/// Decide on one read of a file scanned once from its start: no data is its end.
pub fn scan_step(read: Option<&str>, filter: Option<&LineMatcher>) -> (action: PollAction)
    ensures
        match read {
            Some(raw) => action_is(action, forwarded(raw@, filter_model(filter))),
            None => action == PollAction::Finish,
        },
{
    match read {
        Some(raw) => match forward_line(raw, filter) {
            Some(l) => PollAction::Emit(l),
            None => PollAction::Skip,
        },
        None => PollAction::Finish,
    }
}


/// The wait after `k` reads without data since the last data.
pub open spec fn idle_after(k: nat) -> u64
    decreases k,
{
    if k == 0 {
        START_IDLE_MS
    } else {
        next_idle(idle_after((k - 1) as nat))
    }
}

/// The idle wait doubles from 8 ms with each read that finds no data, until it reaches
/// 512 ms after six such reads, and stays there.
pub proof fn law_backoff_schedule(k: nat)
    ensures
        idle_after(k) == if k >= 6 {
            MAX_IDLE_MS as int
        } else {
            START_IDLE_MS * pow2(k)
        },
        START_IDLE_MS <= idle_after(k) <= MAX_IDLE_MS,
    decreases k,
{
    lemma2_to64();
    if k > 0 {
        law_backoff_schedule((k - 1) as nat);
        if k <= 6 {
            lemma_pow2_unfold(k);
        }
    }
}


/// A line the one-shot scan sends is never empty, ends in no whitespace, and is the start of
/// the raw line.
pub proof fn law_forwarded_line_shape(raw: Seq<char>, filter: Option<crate::matcher::MatcherModel>)
    ensures
        forwarded(raw, filter) matches Some(l) ==> {
            &&& l.len() > 0
            &&& trimmed_end(l) == l
            &&& l == raw.subrange(0, l.len() as int)
        },
{
    lemma_trimmed_end_shape(raw);
    law_trim_end_idempotent(raw);
}


/// For a follower that waits for whole lines, a line that arrives in pieces is sent once,
/// whole, when its newline arrives: reading `a` (no newline) and then `b` holds and sends
/// what reading `a + b` at once would.
pub proof fn law_split_line_sent_once(
    pending: Seq<char>,
    a: Seq<char>,
    b: Seq<char>,
    filter: Option<crate::matcher::MatcherModel>,
)
    requires
        !ends_line(a),
    ensures
        sent_after(true, pending, a, filter) is None,
        pending_after(true, pending_after(true, pending, a), b) == pending_after(
            true,
            pending,
            a + b,
        ),
        sent_after(true, pending_after(true, pending, a), b, filter) == sent_after(
            true,
            pending,
            a + b,
            filter,
        ),
{
    assert(pending + a + b =~= pending + (a + b));
    if b.len() == 0 {
        assert(a + b =~= a);
    } else {
        assert((a + b).last() == b.last());
    }
}

/// Without a filter a follower sends every line it completes, blank lines included, as its
/// text without trailing whitespace.
pub proof fn law_follow_without_filter_sends_every_line(
    whole_lines: bool,
    pending: Seq<char>,
    raw: Seq<char>,
)
    requires
        completes(whole_lines, raw),
    ensures
        sent_after(whole_lines, pending, raw, None) == Some(trimmed_end(pending + raw)),
{
}


/// A follower with a filter sends a completed line exactly when the line without its
/// trailing whitespace is non-empty and the filter accepts that trimmed text, and what it
/// sends is that trimmed text.
pub proof fn law_follow_filter_judges_trimmed_line(
    line: Seq<char>,
    m: crate::matcher::MatcherModel,
)
    ensures
        followed(line, Some(m)) is Some <==> trimmed_end(line).len() > 0 && model_matches(
            m,
            trimmed_end(line),
        ),
        followed(line, Some(m)) matches Some(t) ==> t == trimmed_end(line),
{
}

/// What a follower sends for a line does not depend on whitespace (a newline, `\r`, spaces)
/// at the end of the line, with or without a filter.
pub proof fn law_follow_ignores_trailing_whitespace(
    line: Seq<char>,
    ws: Seq<char>,
    filter: Option<crate::matcher::MatcherModel>,
)
    requires
        is_blank(ws),
    ensures
        followed(line + ws, filter) == followed(line, filter),
{
    law_trim_end_ignores_trailing_whitespace(line, ws);
}

/// A line is handed on by a one-shot scan exactly when the matcher accepts the line without
/// its trailing whitespace, and what is handed on is that trimmed text.
pub proof fn law_select_judges_trimmed_line(raw: Seq<char>, m: crate::matcher::MatcherModel)
    ensures
        selected(raw, m) is Some <==> model_matches(m, trimmed_end(raw)),
        selected(raw, m) matches Some(t) ==> t == trimmed_end(raw),
{
}

/// What a one-shot scan hands on for a line does not depend on whitespace at its end.
pub proof fn law_select_ignores_trailing_whitespace(
    raw: Seq<char>,
    ws: Seq<char>,
    m: crate::matcher::MatcherModel,
)
    requires
        is_blank(ws),
    ensures
        selected(raw + ws, m) == selected(raw, m),
{
    law_trim_end_ignores_trailing_whitespace(raw, ws);
}

/// What a scan of a file sends for a line does not depend on whitespace at its end.
pub proof fn law_scan_ignores_trailing_whitespace(
    raw: Seq<char>,
    ws: Seq<char>,
    filter: Option<crate::matcher::MatcherModel>,
)
    requires
        is_blank(ws),
    ensures
        forwarded(raw + ws, filter) == forwarded(raw, filter),
{
    law_trim_end_ignores_trailing_whitespace(raw, ws);
}

} // verus!
