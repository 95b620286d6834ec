//! Regular expressions from the `regex` crate, compiled once and used many times.
//!
//! What the crate answers is named here by spec functions of the pattern and the texts,
//! since the regex language takes pages to state.

use vstd::prelude::*;

use regex::Regex;

verus! {

#[verifier::external_type_specification]
#[verifier::external_body]
pub struct ExRegex(Regex);

/// Whether `regex::Regex::new` accepts `pattern`.
pub uninterp spec fn regex_compiles(pattern: Seq<char>) -> bool;

/// What `regex::Regex::is_match` answers on `text` for the expression compiled from `pattern`.
pub uninterp spec fn regex_finds(pattern: Seq<char>, text: Seq<char>) -> bool;

/// What `regex::Regex::replace_all` returns for the expression compiled from `pattern`,
/// applied to `text` with `replacement` (which may refer to groups as `$1`, `$name`).
pub uninterp spec fn regex_replaced(
    pattern: Seq<char>,
    text: Seq<char>,
    replacement: Seq<char>,
) -> Seq<char>;

/// A compiled regular expression together with the pattern it was compiled from.
///
/// The fields are private to this module and only `compile` builds a value, so `re` is
/// always the expression `regex::Regex::new(source)` returned.
#[derive(Debug)]
pub struct CompiledRegex {
    source: String,
    re: Regex,
}

impl View for CompiledRegex {
    type V = Seq<char>;

    /// The pattern the expression was compiled from.
    closed spec fn view(&self) -> Seq<char> {
        self.source@
    }
}

/// Calls `regex::Regex::new(pattern)`: the compiled expression, kept with its pattern, when
/// the crate accepts the pattern; `None` when it refuses it.
#[verifier::external_body]
pub(crate) fn compile(pattern: &str) -> (r: Option<CompiledRegex>)
    ensures
        r is Some <==> regex_compiles(pattern@),
        r matches Some(c) ==> c@ == pattern@,
{
    match Regex::new(pattern) {
        Ok(re) => Some(CompiledRegex { source: pattern.to_string(), re }),
        Err(_) => None,
    }
}

/// Calls `regex::Regex::is_match(text)` on the compiled expression.
#[verifier::external_body]
pub(crate) fn is_match(c: &CompiledRegex, text: &str) -> (b: bool)
    ensures
        b == regex_finds(c@, text@),
{
    c.re.is_match(text)
}

/// Calls `regex::Regex::replace_all(text, replacement)` on the compiled expression.
#[verifier::external_body]
pub(crate) fn replace_all(c: &CompiledRegex, text: &str, replacement: &str) -> (r: String)
    ensures
        r@ == regex_replaced(c@, text@, replacement@),
{
    c.re.replace_all(text, replacement).into_owned()
}

} // verus!
