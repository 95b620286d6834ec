//! Line filter built from substring or regex patterns, combined with `Any` / `All`.

use std::sync::Arc;

use vstd::prelude::*;

use crate::regex_ops::{compile, is_match, regex_compiles, regex_finds, CompiledRegex};
use crate::text::{chars_of, clone_strings, contains_chars, seq_contains};

verus! {

/// How multiple filter patterns combine.
#[derive(Debug, Clone, Copy, PartialEq, Eq, Structural)]
pub enum MatchMode {
    /// Line must match at least one pattern.
    Any,
    /// Line must match every pattern.
    All,
}

impl Default for MatchMode {
    fn default() -> (m: Self)
        ensures
            m == MatchMode::Any,
    {
        MatchMode::Any
    }
}

/// A matcher seen as data: its patterns, whether they are regexes, and how they combine.
pub struct MatcherModel {
    pub patterns: Seq<Seq<char>>,
    pub use_regex: bool,
    pub mode: MatchMode,
}

/// Whether one pattern hits `line`: a regex match, or else a substring occurrence.
pub open spec fn pattern_hits(pattern: Seq<char>, use_regex: bool, line: Seq<char>) -> bool {
    if use_regex {
        regex_finds(pattern, line)
    } else {
        seq_contains(line, pattern)
    }
}

/// Whether a matcher accepts `line`. With no patterns every line is accepted.
pub open spec fn model_matches(m: MatcherModel, line: Seq<char>) -> bool {
    if m.patterns.len() == 0 {
        true
    } else {
        match m.mode {
            MatchMode::Any => exists|i: int|
                0 <= i < m.patterns.len() && #[trigger] pattern_hits(
                    m.patterns[i],
                    m.use_regex,
                    line,
                ),
            MatchMode::All => forall|i: int|
                0 <= i < m.patterns.len() ==> #[trigger] pattern_hits(
                    m.patterns[i],
                    m.use_regex,
                    line,
                ),
        }
    }
}

/// Every pattern of a regex matcher is accepted by the regex compiler.
pub open spec fn model_wf(m: MatcherModel) -> bool {
    m.use_regex ==> forall|i: int| 0 <= i < m.patterns.len() ==> #[trigger] regex_compiles(
        m.patterns[i],
    )
}

/// Index of the first pattern the regex compiler refuses, if any.
pub open spec fn is_first_refused(patterns: Seq<Seq<char>>, i: int) -> bool {
    &&& 0 <= i < patterns.len()
    &&& !regex_compiles(patterns[i])
    &&& forall|j: int| 0 <= j < i ==> #[trigger] regex_compiles(patterns[j])
}

/// Why a matcher could not be built.
#[derive(Debug, PartialEq, Eq)]
pub enum MatcherError {
    /// This filter pattern is not a valid regex.
    InvalidRegex(String),
}

/// Compiled line filter: substring or full-regex patterns with `Any` / `All` semantics.
#[derive(Debug)]
pub struct LineMatcher {
    patterns: Vec<String>,
    regexes: Option<Vec<CompiledRegex>>,
    mode: MatchMode,
}

impl View for LineMatcher {
    type V = MatcherModel;

    closed spec fn view(&self) -> MatcherModel {
        MatcherModel {
            patterns: self.patterns.deep_view(),
            use_regex: self.regexes is Some,
            mode: self.mode,
        }
    }
}

/// `regexes` are the patterns `patterns`, compiled, in the same order.
pub open spec fn compiled_from(regexes: Seq<CompiledRegex>, patterns: Seq<Seq<char>>) -> bool {
    &&& regexes.len() == patterns.len()
    &&& forall|i: int| 0 <= i < patterns.len() ==> (#[trigger] regexes[i])@ == patterns[i]
}

/// Compile every pattern, in order; the index of the first one refused is the error.
fn compile_all(patterns: &Vec<String>) -> (r: Result<Vec<CompiledRegex>, usize>)
    ensures
        r matches Ok(rs) ==> compiled_from(rs@, patterns.deep_view()) && forall|i: int|
            0 <= i < patterns@.len() ==> #[trigger] regex_compiles(patterns.deep_view()[i]),
        r matches Err(i) ==> is_first_refused(patterns.deep_view(), i as int),
{
    let ghost ps = patterns.deep_view();
    let n = patterns.len();
    let mut rs: Vec<CompiledRegex> = Vec::new();
    let mut i: usize = 0;
    while i < n
        invariant
            n == patterns@.len(),
            ps == patterns.deep_view(),
            i <= n,
            rs@.len() == i,
            forall|j: int| 0 <= j < i ==> (#[trigger] rs@[j])@ == ps[j],
            forall|j: int| 0 <= j < i ==> #[trigger] regex_compiles(ps[j]),
        decreases n - i,
    {
        match compile(patterns[i].as_str()) {
            Some(c) => {
                rs.push(c);
            },
            None => {
                return Err(i);
            },
        }
        i = i + 1;
    }
    Ok(rs)
}

impl Clone for LineMatcher {
    /// A matcher with the same patterns and mode; regexes are compiled again.
    fn clone(&self) -> (r: Self)
        ensures
            r@ == self@,
    {
        proof {
            use_type_invariant(self);
        }
        let patterns = clone_strings(&self.patterns);
        let regexes = match &self.regexes {
            None => None,
            Some(_) => match compile_all(&patterns) {
                Ok(rs) => Some(rs),
                Err(i) => {
                    proof {
                        assert(regex_compiles(self@.patterns[i as int]));
                    }
                    None
                },
            },
        };
        LineMatcher { patterns, regexes, mode: self.mode }
    }
}

impl LineMatcher {
    #[verifier::type_invariant]
    closed spec fn inv(self) -> bool {
        &&& model_wf(self@)
        &&& self.regexes matches Some(rs) ==> compiled_from(rs@, self.patterns.deep_view())
    }

    /// Single substring match (`contains`), `Any` mode.
    pub fn keyword(keyword: &str) -> (m: Self)
        ensures
            m@ == keyword_model(keyword@),
    {
        let s = String::from_str(keyword);
        let mut patterns: Vec<String> = Vec::new();
        patterns.push(s);
        let m = LineMatcher { patterns, regexes: None, mode: MatchMode::Any };
        proof {
            assert(m@.patterns =~= seq![keyword@]);
        }
        m
    }

    /// Build a matcher from config-style options. Empty `patterns` matches every line.
    /// With `use_regex`, each pattern is compiled once; the first one that does not compile
    /// is reported.
    pub fn from_options(patterns: Vec<String>, use_regex: bool, mode: MatchMode) -> (r: Result<
        Self,
        MatcherError,
    >)
        ensures
            r is Ok <==> model_wf(
                MatcherModel { patterns: patterns.deep_view(), use_regex, mode },
            ),
            r matches Ok(m) ==> m@ == (MatcherModel {
                patterns: patterns.deep_view(),
                use_regex,
                mode,
            }),
            r matches Err(MatcherError::InvalidRegex(p)) ==> use_regex && exists|i: int|
                is_first_refused(patterns.deep_view(), i) && p@ == #[trigger] patterns.deep_view()[i],
    {
        let regexes = if use_regex {
            match compile_all(&patterns) {
                Ok(rs) => Some(rs),
                Err(i) => {
                    let bad = patterns[i].clone();
                    proof {
                        let mm = MatcherModel { patterns: patterns.deep_view(), use_regex, mode };
                        assert(!regex_compiles(mm.patterns[i as int]));
                    }
                    return Err(MatcherError::InvalidRegex(bad));
                },
            }
        } else {
            None
        };
        Ok(LineMatcher { patterns, regexes, mode })
    }

    /// Wrap in `Arc` for sharing with reader tasks.
    pub fn arc(self) -> (a: Arc<Self>)
        ensures
            *a == self,
    {
        Arc::new(self)
    }

    /// Whether this matcher accepts `line`.
    pub fn matches_line(&self, line: &str) -> (b: bool)
        ensures
            b == model_matches(self@, line@),
    {
        let n = self.patterns.len();
        if n == 0 {
            return true;
        }
        proof {
            use_type_invariant(self);
        }
        let ghost m = self@;
        let lv = chars_of(line);
        let mut i: usize = 0;
        while i < n
            invariant
                n == self.patterns@.len(),
                m == self@,
                self.regexes matches Some(rs) ==> compiled_from(rs@, self.patterns.deep_view()),
                lv@ == line@,
                i <= n,
                m.mode == MatchMode::Any ==> forall|j: int|
                    0 <= j < i ==> !#[trigger] pattern_hits(m.patterns[j], m.use_regex, line@),
                m.mode == MatchMode::All ==> forall|j: int|
                    0 <= j < i ==> #[trigger] pattern_hits(m.patterns[j], m.use_regex, line@),
            decreases n - i,
        {
            let hit = match &self.regexes {
                Some(rs) => is_match(&rs[i], line),
                None => {
                    let pv = chars_of(self.patterns[i].as_str());
                    contains_chars(&lv, &pv)
                },
            };
            proof {
                assert(hit == pattern_hits(m.patterns[i as int], m.use_regex, line@));
            }
            match self.mode {
                MatchMode::Any => {
                    if hit {
                        return true;
                    }
                },
                MatchMode::All => {
                    if !hit {
                        return false;
                    }
                },
            }
            i = i + 1;
        }
        match self.mode {
            MatchMode::Any => false,
            MatchMode::All => true,
        }
    }
}


/// The matcher `LineMatcher::keyword(k)` builds.
pub open spec fn keyword_model(k: Seq<char>) -> MatcherModel {
    MatcherModel { patterns: seq![k], use_regex: false, mode: MatchMode::Any }
}

/// A matcher with no patterns accepts every line, the empty line included.
pub proof fn law_empty_patterns_match_every_line(m: MatcherModel, line: Seq<char>)
    requires
        m.patterns.len() == 0,
    ensures
        model_matches(m, line),
{
}

/// A keyword matcher accepts exactly the lines that contain the keyword.
pub proof fn law_keyword_matches_containing_lines(k: Seq<char>, line: Seq<char>)
    ensures
        model_matches(keyword_model(k), line) == seq_contains(line, k),
{
    let m = keyword_model(k);
    if seq_contains(line, k) {
        assert(pattern_hits(m.patterns[0], m.use_regex, line));
    }
}

/// A line that every pattern hits is hit by some pattern: `All` accepts no more than `Any`.
pub proof fn law_all_mode_implies_any_mode(patterns: Seq<Seq<char>>, use_regex: bool, line: Seq<char>)
    ensures
        model_matches(MatcherModel { patterns, use_regex, mode: MatchMode::All }, line)
            ==> model_matches(MatcherModel { patterns, use_regex, mode: MatchMode::Any }, line),
{
    let all = MatcherModel { patterns, use_regex, mode: MatchMode::All };
    let any = MatcherModel { patterns, use_regex, mode: MatchMode::Any };
    if patterns.len() > 0 && model_matches(all, line) {
        assert(pattern_hits(all.patterns[0], all.use_regex, line));
        assert(pattern_hits(any.patterns[0], any.use_regex, line));
    }
}

/// With a single pattern, `Any` and `All` accept the same lines.
pub proof fn law_single_pattern_modes_agree(p: Seq<char>, use_regex: bool, line: Seq<char>)
    ensures
        model_matches(MatcherModel { patterns: seq![p], use_regex, mode: MatchMode::All }, line)
            == model_matches(MatcherModel { patterns: seq![p], use_regex, mode: MatchMode::Any }, line),
{
    let all = MatcherModel { patterns: seq![p], use_regex, mode: MatchMode::All };
    let any = MatcherModel { patterns: seq![p], use_regex, mode: MatchMode::Any };
    if pattern_hits(p, use_regex, line) {
        assert(pattern_hits(any.patterns[0], any.use_regex, line));
        assert forall|i: int| 0 <= i < all.patterns.len() implies #[trigger] pattern_hits(
            all.patterns[i],
            all.use_regex,
            line,
        ) by {
            assert(i == 0);
        }
    } else {
        assert(!pattern_hits(all.patterns[0], all.use_regex, line));
    }
}


/// Adding patterns never narrows `Any` and never widens `All`: when every pattern of `ps`
/// is also in `qs`, `Any` over `ps` accepting a line means `Any` over `qs` accepts it, and
/// `All` over `qs` accepting it means `All` over `ps` accepts it.
pub proof fn law_more_patterns_widen_any_narrow_all(
    ps: Seq<Seq<char>>,
    qs: Seq<Seq<char>>,
    use_regex: bool,
    line: Seq<char>,
)
    requires
        ps.len() > 0,
        forall|i: int| 0 <= i < ps.len() ==> qs.contains(#[trigger] ps[i]),
    ensures
        model_matches(MatcherModel { patterns: ps, use_regex, mode: MatchMode::Any }, line)
            ==> model_matches(MatcherModel { patterns: qs, use_regex, mode: MatchMode::Any }, line),
        model_matches(MatcherModel { patterns: qs, use_regex, mode: MatchMode::All }, line)
            ==> model_matches(MatcherModel { patterns: ps, use_regex, mode: MatchMode::All }, line),
{
    let any_p = MatcherModel { patterns: ps, use_regex, mode: MatchMode::Any };
    let any_q = MatcherModel { patterns: qs, use_regex, mode: MatchMode::Any };
    let all_p = MatcherModel { patterns: ps, use_regex, mode: MatchMode::All };
    let all_q = MatcherModel { patterns: qs, use_regex, mode: MatchMode::All };
    assert(qs.contains(ps[0]));
    if model_matches(any_p, line) {
        let i = choose|i: int|
            0 <= i < ps.len() && #[trigger] pattern_hits(any_p.patterns[i], any_p.use_regex, line);
        assert(qs.contains(ps[i]));
        let j = choose|j: int| 0 <= j < qs.len() && qs[j] == ps[i];
        assert(pattern_hits(any_q.patterns[j], any_q.use_regex, line));
    }
    if model_matches(all_q, line) {
        assert forall|i: int| 0 <= i < ps.len() implies #[trigger] pattern_hits(
            all_p.patterns[i],
            all_p.use_regex,
            line,
        ) by {
            assert(qs.contains(ps[i]));
            let j = choose|j: int| 0 <= j < qs.len() && qs[j] == ps[i];
            assert(pattern_hits(all_q.patterns[j], all_q.use_regex, line));
        }
    }
}

/// A single-pattern matcher, in either mode, accepts a line exactly when its pattern hits
/// the line as given: a regex pattern finds a match somewhere in the whole line, a plain
/// pattern occurs in it.
pub proof fn law_single_pattern_matcher(p: Seq<char>, use_regex: bool, mode: MatchMode, line: Seq<char>)
    ensures
        model_matches(MatcherModel { patterns: seq![p], use_regex, mode }, line) == if use_regex {
            regex_finds(p, line)
        } else {
            seq_contains(line, p)
        },
{
    let m = MatcherModel { patterns: seq![p], use_regex, mode };
    assert(m.patterns[0] == p);
    if model_matches(m, line) {
        if mode == MatchMode::Any {
            let i = choose|i: int|
                0 <= i < m.patterns.len() && #[trigger] pattern_hits(m.patterns[i], m.use_regex, line);
            assert(i == 0);
        } else {
            assert(pattern_hits(m.patterns[0], m.use_regex, line));
        }
    }
    if pattern_hits(p, use_regex, line) {
        assert(pattern_hits(m.patterns[0], m.use_regex, line));
        assert forall|i: int| 0 <= i < m.patterns.len() implies #[trigger] pattern_hits(
            m.patterns[i],
            m.use_regex,
            line,
        ) by {
            assert(i == 0);
        }
    }
}

/// A regex matcher runs every pattern on the line as given: `Any` accepts a line exactly
/// when some pattern finds a match in it, `All` exactly when every pattern does.
pub proof fn law_regex_matcher_searches_whole_line(ps: Seq<Seq<char>>, line: Seq<char>)
    requires
        ps.len() > 0,
    ensures
        model_matches(MatcherModel { patterns: ps, use_regex: true, mode: MatchMode::Any }, line)
            <==> exists|i: int| 0 <= i < ps.len() && #[trigger] regex_finds(ps[i], line),
        model_matches(MatcherModel { patterns: ps, use_regex: true, mode: MatchMode::All }, line)
            <==> forall|i: int| 0 <= i < ps.len() ==> #[trigger] regex_finds(ps[i], line),
{
    let any = MatcherModel { patterns: ps, use_regex: true, mode: MatchMode::Any };
    let all = MatcherModel { patterns: ps, use_regex: true, mode: MatchMode::All };
    if model_matches(any, line) {
        let i = choose|i: int|
            0 <= i < ps.len() && #[trigger] pattern_hits(any.patterns[i], any.use_regex, line);
        assert(regex_finds(ps[i], line));
    }
    if exists|i: int| 0 <= i < ps.len() && #[trigger] regex_finds(ps[i], line) {
        let i = choose|i: int| 0 <= i < ps.len() && #[trigger] regex_finds(ps[i], line);
        assert(pattern_hits(any.patterns[i], any.use_regex, line));
    }
    if model_matches(all, line) {
        assert forall|i: int| 0 <= i < ps.len() implies #[trigger] regex_finds(ps[i], line) by {
            assert(pattern_hits(all.patterns[i], all.use_regex, line));
        }
    }
    if forall|i: int| 0 <= i < ps.len() ==> #[trigger] regex_finds(ps[i], line) {
        assert forall|i: int| 0 <= i < ps.len() implies #[trigger] pattern_hits(
            all.patterns[i],
            all.use_regex,
            line,
        ) by {
            assert(regex_finds(ps[i], line));
        }
    }
}

/// A substring matcher looks for every pattern in the line as given: `Any` accepts a line
/// exactly when it contains some pattern, `All` exactly when it contains every pattern.
pub proof fn law_substring_matcher_searches_whole_line(ps: Seq<Seq<char>>, line: Seq<char>)
    requires
        ps.len() > 0,
    ensures
        model_matches(MatcherModel { patterns: ps, use_regex: false, mode: MatchMode::Any }, line)
            <==> exists|i: int| 0 <= i < ps.len() && #[trigger] seq_contains(line, ps[i]),
        model_matches(MatcherModel { patterns: ps, use_regex: false, mode: MatchMode::All }, line)
            <==> forall|i: int| 0 <= i < ps.len() ==> #[trigger] seq_contains(line, ps[i]),
{
    let any = MatcherModel { patterns: ps, use_regex: false, mode: MatchMode::Any };
    let all = MatcherModel { patterns: ps, use_regex: false, mode: MatchMode::All };
    if model_matches(any, line) {
        let i = choose|i: int|
            0 <= i < ps.len() && #[trigger] pattern_hits(any.patterns[i], any.use_regex, line);
        assert(seq_contains(line, ps[i]));
    }
    if exists|i: int| 0 <= i < ps.len() && #[trigger] seq_contains(line, ps[i]) {
        let i = choose|i: int| 0 <= i < ps.len() && #[trigger] seq_contains(line, ps[i]);
        assert(pattern_hits(any.patterns[i], any.use_regex, line));
    }
    if model_matches(all, line) {
        assert forall|i: int| 0 <= i < ps.len() implies #[trigger] seq_contains(line, ps[i]) by {
            assert(pattern_hits(all.patterns[i], all.use_regex, line));
        }
    }
    if forall|i: int| 0 <= i < ps.len() ==> #[trigger] seq_contains(line, ps[i]) {
        assert forall|i: int| 0 <= i < ps.len() implies #[trigger] pattern_hits(
            all.patterns[i],
            all.use_regex,
            line,
        ) by {
            assert(seq_contains(line, ps[i]));
        }
    }
}

} // verus!
