//! Command-line arguments of the log reader.

use vstd::prelude::*;

verus! {

/// Log reader arguments: filter a file once, or follow it with `tail`.
/// An optional TOML config file merges with the positionals.
#[derive(Debug, Clone)]
pub struct Args {
    /// TOML configuration file (`[source]`, `[filters]`, `[output]`).
    pub config: Option<String>,
    /// Log file path (overrides `[source].path` from config when both are set).
    pub file_path: Option<String>,
    /// Filter keyword (overrides `[filters].patterns` from config when set).
    pub keyword: Option<String>,
    /// File that matched lines are appended to (overrides `[output].file` from config).
    pub output: Option<String>,
    /// Follow the file for new lines (`tail -f` semantics).
    pub tail: bool,
}

} // verus!
