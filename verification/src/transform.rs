//! Built-in line transforms, configured as a list of named steps.

use vstd::prelude::*;

use crate::regex_ops::{
    compile, is_match, regex_compiles, regex_finds, regex_replaced, replace_all, CompiledRegex,
};
use crate::text::{
    is_blank, law_trim_empty_iff_blank, law_trim_idempotent, lowercased, opt_view,
    seq_starts_with, str_starts_with, to_lowercase, to_uppercase, trim_str, trimmed, uppercased,
};

verus! {

/// One step of a `[[transforms]]` list: a plugin name and the options it may need.
#[derive(Debug, Clone)]
pub struct TransformSpec {
    pub name: String,
    pub arg: Option<String>,
    pub pattern: Option<String>,
    pub replacement: Option<String>,
}

/// A built-in transform step. Regex steps hold an expression compiled once, when the step
/// is built.
#[derive(Debug)]
pub enum TransformStep {
    /// Remove leading and trailing whitespace.
    Trim,
    /// Unicode lowercase.
    Lowercase,
    /// Unicode uppercase.
    Uppercase,
    /// Remove this prefix when the line starts with it.
    StripPrefix(String),
    /// Put this text in front of the line.
    Prepend(String),
    /// Put this text after the line.
    Append(String),
    /// Replace every match of the expression by `replacement`.
    RegexReplace { re: CompiledRegex, replacement: String },
    /// Drop lines in which this expression finds a match.
    DropIfMatches(CompiledRegex),
    /// Drop lines that are empty once trimmed.
    DropIfEmpty,
}

/// A step as data: what it does, with the texts and patterns it uses.
pub enum StepModel {
    Trim,
    Lowercase,
    Uppercase,
    StripPrefix(Seq<char>),
    Prepend(Seq<char>),
    Append(Seq<char>),
    /// Pattern, then replacement.
    RegexReplace(Seq<char>, Seq<char>),
    /// Pattern.
    DropIfMatches(Seq<char>),
    DropIfEmpty,
}

impl View for TransformStep {
    type V = StepModel;

    open spec fn view(&self) -> StepModel {
        match self {
            TransformStep::Trim => StepModel::Trim,
            TransformStep::Lowercase => StepModel::Lowercase,
            TransformStep::Uppercase => StepModel::Uppercase,
            TransformStep::StripPrefix(p) => StepModel::StripPrefix(p@),
            TransformStep::Prepend(p) => StepModel::Prepend(p@),
            TransformStep::Append(p) => StepModel::Append(p@),
            TransformStep::RegexReplace { re, replacement } => StepModel::RegexReplace(
                re@,
                replacement@,
            ),
            TransformStep::DropIfMatches(re) => StepModel::DropIfMatches(re@),
            TransformStep::DropIfEmpty => StepModel::DropIfEmpty,
        }
    }
}

/// Why a pipeline could not be built.
#[derive(Debug, PartialEq, Eq)]
pub enum TransformError {
    /// No built-in plugin has this name.
    UnknownPlugin(String),
    /// This plugin (`strip_prefix`, `prepend`, `append`) needs a string `arg`.
    MissingArg(String),
    /// This plugin (`regex_replace`, `drop_if_matches`) needs a `pattern`.
    MissingPattern(String),
    /// `regex_replace` needs a `replacement`.
    MissingReplacement,
    /// This pattern is not a valid regex.
    InvalidRegex(String),
}

/// A step's effect on one line: `None` drops the line, `Some(s)` passes `s` on.
pub trait Transform: Send + Sync {
    /// Returns `None` to drop the line; `Some(s)` to pass to the next step.
    fn apply(&self, line: String) -> Option<String>;
}

/// What one step makes of `line`.
pub open spec fn step_output(step: StepModel, line: Seq<char>) -> Option<Seq<char>> {
    match step {
        StepModel::Trim => Some(trimmed(line)),
        StepModel::Lowercase => Some(lowercased(line)),
        StepModel::Uppercase => Some(uppercased(line)),
        StepModel::StripPrefix(p) => Some(
            if seq_starts_with(line, p) {
                line.subrange(p.len() as int, line.len() as int)
            } else {
                line
            },
        ),
        StepModel::Prepend(p) => Some(p + line),
        StepModel::Append(p) => Some(line + p),
        StepModel::RegexReplace(pattern, replacement) => Some(
            regex_replaced(pattern, line, replacement),
        ),
        StepModel::DropIfMatches(p) => if regex_finds(p, line) {
            None
        } else {
            Some(line)
        },
        StepModel::DropIfEmpty => if trimmed(line).len() == 0 {
            None
        } else {
            Some(line)
        },
    }
}

/// What a chain of steps makes of `line`, applied first to last; a drop ends the chain.
pub open spec fn pipeline_output(chain: Seq<StepModel>, line: Seq<char>) -> Option<Seq<char>>
    decreases chain.len(),
{
    if chain.len() == 0 {
        Some(line)
    } else {
        match pipeline_output(chain.drop_last(), line) {
            Some(l) => step_output(chain.last(), l),
            None => None,
        }
    }
}

/// The steps of a chain, as data.
pub open spec fn chain_view(chain: Seq<TransformStep>) -> Seq<StepModel> {
    chain.map_values(|s: TransformStep| s@)
}

/// The step a spec names, or why it names none. A regex pattern must compile.
pub open spec fn step_from_spec(s: TransformSpec) -> Result<StepModel, TransformError> {
    let name = s.name@;
    if name == "trim"@ {
        Ok(StepModel::Trim)
    } else if name == "lowercase"@ {
        Ok(StepModel::Lowercase)
    } else if name == "uppercase"@ {
        Ok(StepModel::Uppercase)
    } else if name == "strip_prefix"@ || name == "prepend"@ || name == "append"@ {
        match s.arg {
            None => Err(TransformError::MissingArg(s.name)),
            Some(a) => Ok(
                if name == "strip_prefix"@ {
                    StepModel::StripPrefix(a@)
                } else if name == "prepend"@ {
                    StepModel::Prepend(a@)
                } else {
                    StepModel::Append(a@)
                },
            ),
        }
    } else if name == "regex_replace"@ {
        match (s.pattern, s.replacement) {
            (None, _) => Err(TransformError::MissingPattern(s.name)),
            (Some(_), None) => Err(TransformError::MissingReplacement),
            (Some(p), Some(r)) => if regex_compiles(p@) {
                Ok(StepModel::RegexReplace(p@, r@))
            } else {
                Err(TransformError::InvalidRegex(p))
            },
        }
    } else if name == "drop_if_matches"@ {
        match s.pattern {
            None => Err(TransformError::MissingPattern(s.name)),
            Some(p) => if regex_compiles(p@) {
                Ok(StepModel::DropIfMatches(p@))
            } else {
                Err(TransformError::InvalidRegex(p))
            },
        }
    } else if name == "drop_if_empty"@ {
        Ok(StepModel::DropIfEmpty)
    } else {
        Err(TransformError::UnknownPlugin(s.name))
    }
}

/// Every spec in `specs` names a step.
pub open spec fn all_steps_ok(specs: Seq<TransformSpec>) -> bool {
    forall|i: int| 0 <= i < specs.len() ==> (#[trigger] step_from_spec(specs[i])) is Ok
}

impl Transform for TransformStep {
    fn apply(&self, line: String) -> (r: Option<String>)
        ensures
            opt_view(r) == step_output(self@, line@),
    {
        match self {
            TransformStep::Trim => Some(trim_str(line.as_str())),
            TransformStep::Lowercase => Some(to_lowercase(line.as_str())),
            TransformStep::Uppercase => Some(to_uppercase(line.as_str())),
            TransformStep::StripPrefix(p) => {
                if str_starts_with(line.as_str(), p.as_str()) {
                    let n = line.as_str().unicode_len();
                    let plen = p.as_str().unicode_len();
                    Some(String::from_str(line.as_str().substring_char(plen, n)))
                } else {
                    Some(line)
                }
            },
            TransformStep::Prepend(p) => Some(p.clone().concat(line.as_str())),
            TransformStep::Append(p) => Some(line.concat(p.as_str())),
            TransformStep::RegexReplace { re, replacement } => Some(
                replace_all(re, line.as_str(), replacement.as_str()),
            ),
            TransformStep::DropIfMatches(re) => {
                if is_match(re, line.as_str()) {
                    None
                } else {
                    Some(line)
                }
            },
            TransformStep::DropIfEmpty => {
                let t = trim_str(line.as_str());
                if t.as_str().unicode_len() == 0 {
                    None
                } else {
                    Some(line)
                }
            },
        }
    }
}

impl TransformStep {
    /// The `regex_replace` step: every match of `pattern` becomes `replacement`.
    pub fn regex_replace(pattern: &str, replacement: &str) -> (r: Result<Self, TransformError>)
        ensures
            r is Ok <==> regex_compiles(pattern@),
            r matches Ok(step) ==> step@ == StepModel::RegexReplace(pattern@, replacement@),
            r matches Err(e) ==> e is InvalidRegex && e->InvalidRegex_0@ == pattern@,
    {
        match compile(pattern) {
            Some(re) => Ok(TransformStep::RegexReplace { re, replacement: String::from_str(replacement) }),
            None => Err(TransformError::InvalidRegex(String::from_str(pattern))),
        }
    }

    /// The `drop_if_matches` step: lines in which `pattern` finds a match are dropped.
    pub fn drop_if_matches(pattern: &str) -> (r: Result<Self, TransformError>)
        ensures
            r is Ok <==> regex_compiles(pattern@),
            r matches Ok(step) ==> step@ == StepModel::DropIfMatches(pattern@),
            r matches Err(e) ==> e is InvalidRegex && e->InvalidRegex_0@ == pattern@,
    {
        match compile(pattern) {
            Some(re) => Ok(TransformStep::DropIfMatches(re)),
            None => Err(TransformError::InvalidRegex(String::from_str(pattern))),
        }
    }
}


/// The step a spec names: `step_from_spec`, with `Ok(model)` answered by a step of that model.
pub open spec fn built_as(r: Result<TransformStep, TransformError>, s: TransformSpec) -> bool {
    match r {
        Ok(step) => step_from_spec(s) == Ok::<StepModel, TransformError>(step@),
        Err(e) => step_from_spec(s) == Err::<StepModel, TransformError>(e),
    }
}

/// The step `s` names, or why it names none.
fn step_for(s: &TransformSpec) -> (r: Result<TransformStep, TransformError>)
    ensures
        built_as(r, *s),
{
    let name = &s.name;
    if *name == String::from_str("trim") {
        Ok(TransformStep::Trim)
    } else if *name == String::from_str("lowercase") {
        Ok(TransformStep::Lowercase)
    } else if *name == String::from_str("uppercase") {
        Ok(TransformStep::Uppercase)
    } else if *name == String::from_str("strip_prefix") || *name == String::from_str("prepend")
        || *name == String::from_str("append") {
        match &s.arg {
            None => Err(TransformError::MissingArg(name.clone())),
            Some(a) => {
                let a = a.clone();
                if *name == String::from_str("strip_prefix") {
                    Ok(TransformStep::StripPrefix(a))
                } else if *name == String::from_str("prepend") {
                    Ok(TransformStep::Prepend(a))
                } else {
                    Ok(TransformStep::Append(a))
                }
            },
        }
    } else if *name == String::from_str("regex_replace") {
        match (&s.pattern, &s.replacement) {
            (None, _) => Err(TransformError::MissingPattern(name.clone())),
            (Some(_), None) => Err(TransformError::MissingReplacement),
            (Some(p), Some(r)) => {
                match compile(p.as_str()) {
                    Some(re) => Ok(TransformStep::RegexReplace { re, replacement: r.clone() }),
                    None => Err(TransformError::InvalidRegex(p.clone())),
                }
            },
        }
    } else if *name == String::from_str("drop_if_matches") {
        match &s.pattern {
            None => Err(TransformError::MissingPattern(name.clone())),
            Some(p) => {
                match compile(p.as_str()) {
                    Some(re) => Ok(TransformStep::DropIfMatches(re)),
                    None => Err(TransformError::InvalidRegex(p.clone())),
                }
            },
        }
    } else if *name == String::from_str("drop_if_empty") {
        Ok(TransformStep::DropIfEmpty)
    } else {
        Err(TransformError::UnknownPlugin(name.clone()))
    }
}

/// Build the steps that `specs` name, in order; the first spec that names no step is the error.
pub fn build_pipeline(specs: &[TransformSpec]) -> (r: Result<Vec<TransformStep>, TransformError>)
    ensures
        r is Ok <==> all_steps_ok(specs@),
        r matches Ok(steps) ==> steps@.len() == specs@.len() && forall|i: int|
            0 <= i < specs@.len() ==> step_from_spec(specs@[i]) == Ok::<StepModel, TransformError>(
                (#[trigger] steps@[i])@,
            ),
        r matches Err(e) ==> exists|i: int|
            0 <= i < specs@.len() && step_from_spec(#[trigger] specs@[i]) == Err::<
                StepModel,
                TransformError,
            >(e) && forall|j: int| 0 <= j < i ==> (#[trigger] step_from_spec(specs@[j])) is Ok,
{
    let n = specs.len();
    let mut out: Vec<TransformStep> = Vec::new();
    let mut i: usize = 0;
    while i < n
        invariant
            n == specs@.len(),
            i <= n,
            out@.len() == i,
            forall|j: int|
                0 <= j < i ==> step_from_spec(specs@[j]) == Ok::<StepModel, TransformError>(
                    (#[trigger] out@[j])@,
                ),
        decreases n - i,
    {
        let built = step_for(&specs[i]);
        match built {
            Ok(step) => {
                out.push(step);
            },
            Err(e) => {
                proof {
                    assert(step_from_spec(specs@[i as int]) is Err);
                    assert forall|j: int| 0 <= j < i implies (#[trigger] step_from_spec(
                        specs@[j],
                    )) is Ok by {
                        assert(step_from_spec(specs@[j]) == Ok::<StepModel, TransformError>(
                            out@[j]@,
                        ));
                    }
                }
                return Err(e);
            },
        }
        i = i + 1;
    }
    proof {
        assert forall|j: int| 0 <= j < specs@.len() implies (#[trigger] step_from_spec(
            specs@[j],
        )) is Ok by {
            assert(step_from_spec(specs@[j]) == Ok::<StepModel, TransformError>(out@[j]@));
        }
    }
    Ok(out)
}

/// Apply each transform in order. `None` means the line must not be emitted.
pub fn apply_pipeline(line: &str, chain: &[TransformStep]) -> (r: Option<String>)
    ensures
        opt_view(r) == pipeline_output(chain_view(chain@), line@),
{
    let ghost models = chain_view(chain@);
    let n = chain.len();
    let mut cur = String::from_str(line);
    let mut i: usize = 0;
    proof {
        assert(models.take(0) =~= Seq::<StepModel>::empty());
    }
    while i < n
        invariant
            n == chain@.len(),
            models == chain_view(chain@),
            i <= n,
            pipeline_output(models.take(i as int), line@) == Some(cur@),
        decreases n - i,
    {
        proof {
            assert(models.take(i + 1).drop_last() =~= models.take(i as int));
            assert(models.take(i + 1).last() == chain@[i as int]@);
        }
        match chain[i].apply(cur) {
            Some(next) => {
                cur = next;
            },
            None => {
                proof {
                    lemma_dropped_stays_dropped(models, line@, i + 1);
                }
                return None;
            },
        }
        i = i + 1;
    }
    proof {
        assert(models.take(n as int) =~= models);
    }
    Some(cur)
}

/// Once a prefix of the chain drops the line, the whole chain does.
proof fn lemma_dropped_stays_dropped(chain: Seq<StepModel>, line: Seq<char>, k: int)
    requires
        0 <= k <= chain.len(),
        pipeline_output(chain.take(k), line) is None,
    ensures
        pipeline_output(chain, line) is None,
    decreases chain.len() - k,
{
    if k < chain.len() {
        assert(chain.take(k + 1).drop_last() =~= chain.take(k));
        lemma_dropped_stays_dropped(chain, line, k + 1);
    } else {
        assert(chain.take(k) =~= chain);
    }
}

/// An empty chain passes every line through unchanged.
pub proof fn law_empty_pipeline_is_identity(line: Seq<char>)
    ensures
        pipeline_output(Seq::<StepModel>::empty(), line) == Some(line),
{
}

/// Running two chains one after the other is running their concatenation.
pub proof fn law_pipeline_concat(a: Seq<StepModel>, b: Seq<StepModel>, line: Seq<char>)
    ensures
        pipeline_output(a + b, line) == match pipeline_output(a, line) {
            Some(mid) => pipeline_output(b, mid),
            None => None,
        },
    decreases b.len(),
{
    if b.len() == 0 {
        assert(a + b =~= a);
    } else {
        assert((a + b).drop_last() =~= a + b.drop_last());
        assert((a + b).last() == b.last());
        law_pipeline_concat(a, b.drop_last(), line);
    }
}

/// `trim` followed by `drop_if_empty` drops exactly the blank lines and trims the others.
pub proof fn law_trim_then_drop_empty(line: Seq<char>)
    ensures
        pipeline_output(seq![StepModel::Trim, StepModel::DropIfEmpty], line) == if is_blank(line) {
            None
        } else {
            Some(trimmed(line))
        },
{
    let chain = seq![StepModel::Trim, StepModel::DropIfEmpty];
    assert(chain.drop_last() =~= seq![StepModel::Trim]);
    assert(chain.drop_last().drop_last() =~= Seq::<StepModel>::empty());
    assert(pipeline_output(chain.drop_last().drop_last(), line) == Some(line));
    assert(pipeline_output(chain.drop_last(), line) == Some(trimmed(line)));
    law_trim_idempotent(line);
    law_trim_empty_iff_blank(line);
}

/// `strip_prefix` undoes `prepend` of the same text.
pub proof fn law_strip_prefix_undoes_prepend(p: Seq<char>, line: Seq<char>)
    ensures
        pipeline_output(seq![StepModel::Prepend(p), StepModel::StripPrefix(p)], line) == Some(
            line,
        ),
{
    let chain = seq![StepModel::Prepend(p), StepModel::StripPrefix(p)];
    assert(chain.drop_last() =~= seq![StepModel::Prepend(p)]);
    assert(chain.drop_last().drop_last() =~= Seq::<StepModel>::empty());
    let joined = p + line;
    assert(joined.subrange(0, p.len() as int) =~= p);
    assert(joined.subrange(p.len() as int, joined.len() as int) =~= line);
    assert(pipeline_output(chain.drop_last().drop_last(), line) == Some(line));
    assert(pipeline_output(chain.drop_last(), line) == Some(joined));
}

/// A chain of one step does what that step does.
proof fn lemma_one_step_chain(step: StepModel, line: Seq<char>)
    ensures
        pipeline_output(seq![step], line) == step_output(step, line),
{
    let chain = seq![step];
    assert(chain.drop_last() =~= Seq::<StepModel>::empty());
    assert(pipeline_output(chain.drop_last(), line) == Some(line));
}

/// A `prepend` spec with `arg` builds a step that puts `arg` in front of every line exactly
/// as written, whitespace included: a chain of that one step maps `line` to `arg + line`.
pub proof fn law_prepend_keeps_arg_verbatim(s: TransformSpec, a: String, line: Seq<char>)
    requires
        s.name@ == "prepend"@,
        s.arg == Some(a),
    ensures
        step_from_spec(s) == Ok::<StepModel, TransformError>(StepModel::Prepend(a@)),
        step_from_spec(s) matches Ok(m) && pipeline_output(seq![m], line) == Some(a@ + line),
{
    reveal_strlit("prepend");
    reveal_strlit("trim");
    reveal_strlit("lowercase");
    reveal_strlit("uppercase");
    reveal_strlit("strip_prefix");
    assert("prepend"@.len() == 7);
    assert(s.name@ != "trim"@);
    assert(s.name@ != "lowercase"@);
    assert(s.name@ != "uppercase"@);
    assert(s.name@ != "strip_prefix"@);
    lemma_one_step_chain(StepModel::Prepend(a@), line);
}

/// An `append` spec with `arg` builds a step that puts `arg` after every line exactly as
/// written, whitespace included: a chain of that one step maps `line` to `line + arg`.
pub proof fn law_append_keeps_arg_verbatim(s: TransformSpec, a: String, line: Seq<char>)
    requires
        s.name@ == "append"@,
        s.arg == Some(a),
    ensures
        step_from_spec(s) == Ok::<StepModel, TransformError>(StepModel::Append(a@)),
        step_from_spec(s) matches Ok(m) && pipeline_output(seq![m], line) == Some(line + a@),
{
    reveal_strlit("append");
    reveal_strlit("prepend");
    reveal_strlit("trim");
    reveal_strlit("lowercase");
    reveal_strlit("uppercase");
    reveal_strlit("strip_prefix");
    assert("append"@.len() == 6);
    assert(s.name@ != "trim"@);
    assert(s.name@ != "lowercase"@);
    assert(s.name@ != "uppercase"@);
    assert(s.name@ != "strip_prefix"@);
    assert(s.name@ != "prepend"@);
    lemma_one_step_chain(StepModel::Append(a@), line);
}

/// A `strip_prefix` spec with `arg` builds a step that removes exactly `arg`, as written,
/// from a line that starts with it, and leaves any other line unchanged.
pub proof fn law_strip_prefix_keeps_arg_verbatim(s: TransformSpec, a: String, line: Seq<char>)
    requires
        s.name@ == "strip_prefix"@,
        s.arg == Some(a),
    ensures
        step_from_spec(s) == Ok::<StepModel, TransformError>(StepModel::StripPrefix(a@)),
        step_from_spec(s) matches Ok(m) && pipeline_output(seq![m], a@ + line) == Some(line),
        !seq_starts_with(line, a@) ==> (step_from_spec(s) matches Ok(m) && pipeline_output(
            seq![m],
            line,
        ) == Some(line)),
{
    reveal_strlit("strip_prefix");
    reveal_strlit("trim");
    reveal_strlit("lowercase");
    reveal_strlit("uppercase");
    assert("strip_prefix"@.len() == 12);
    assert(s.name@ != "trim"@);
    assert(s.name@ != "lowercase"@);
    assert(s.name@ != "uppercase"@);
    lemma_one_step_chain(StepModel::StripPrefix(a@), line);
    lemma_one_step_chain(StepModel::StripPrefix(a@), a@ + line);
    let joined = a@ + line;
    assert(joined.subrange(0, a@.len() as int) =~= a@);
    assert(joined.subrange(a@.len() as int, joined.len() as int) =~= line);
}

/// A `drop_if_matches` spec whose pattern compiles builds a step that drops exactly the
/// lines, taken as given, in which that pattern finds a match, and passes the others on
/// unchanged.
pub proof fn law_drop_if_matches_searches_whole_line(s: TransformSpec, p: String, line: Seq<char>)
    requires
        s.name@ == "drop_if_matches"@,
        s.pattern == Some(p),
        regex_compiles(p@),
    ensures
        step_from_spec(s) == Ok::<StepModel, TransformError>(StepModel::DropIfMatches(p@)),
        step_from_spec(s) matches Ok(m) && pipeline_output(seq![m], line) == if regex_finds(
            p@,
            line,
        ) {
            None
        } else {
            Some(line)
        },
{
    reveal_strlit("drop_if_matches");
    reveal_strlit("trim");
    reveal_strlit("lowercase");
    reveal_strlit("uppercase");
    reveal_strlit("strip_prefix");
    reveal_strlit("prepend");
    reveal_strlit("append");
    reveal_strlit("regex_replace");
    assert("drop_if_matches"@.len() == 15);
    assert(s.name@ != "trim"@);
    assert(s.name@ != "lowercase"@);
    assert(s.name@ != "uppercase"@);
    assert(s.name@ != "strip_prefix"@);
    assert(s.name@ != "prepend"@);
    assert(s.name@ != "append"@);
    assert(s.name@ != "regex_replace"@);
    lemma_one_step_chain(StepModel::DropIfMatches(p@), line);
}

/// A `regex_replace` spec whose pattern compiles builds a step that replaces the matches of
/// that pattern in the line as given by the replacement as written.
pub proof fn law_regex_replace_uses_spec_verbatim(
    s: TransformSpec,
    p: String,
    r: String,
    line: Seq<char>,
)
    requires
        s.name@ == "regex_replace"@,
        s.pattern == Some(p),
        s.replacement == Some(r),
        regex_compiles(p@),
    ensures
        step_from_spec(s) == Ok::<StepModel, TransformError>(StepModel::RegexReplace(p@, r@)),
        step_from_spec(s) matches Ok(m) && pipeline_output(seq![m], line) == Some(
            regex_replaced(p@, line, r@),
        ),
{
    reveal_strlit("regex_replace");
    reveal_strlit("trim");
    reveal_strlit("lowercase");
    reveal_strlit("uppercase");
    reveal_strlit("strip_prefix");
    reveal_strlit("prepend");
    reveal_strlit("append");
    assert("regex_replace"@.len() == 13);
    assert(s.name@ != "trim"@);
    assert(s.name@ != "lowercase"@);
    assert(s.name@ != "uppercase"@);
    assert(s.name@ != "strip_prefix"@);
    assert(s.name@ != "prepend"@);
    assert(s.name@ != "append"@);
    lemma_one_step_chain(StepModel::RegexReplace(p@, r@), line);
}

} // verus!
