//! Configuration sections and their merge with the command-line arguments.

use vstd::prelude::*;

use crate::args::Args;
use crate::matcher::{
    is_first_refused, keyword_model, law_keyword_matches_containing_lines,
    law_substring_matcher_searches_whole_line, model_matches, model_wf,
    LineMatcher, MatchMode, MatcherError, MatcherModel,
};
use crate::text::seq_contains;
use crate::text::{clone_opt_string, clone_strings, opt_view};

verus! {

/// `[source]`: where the log comes from.
#[derive(Debug, Clone)]
pub struct SourceSection {
    pub path: Option<String>,
}

impl Default for SourceSection {
    fn default() -> (s: Self)
        ensures
            s.path is None,
    {
        SourceSection { path: None }
    }
}

/// `[filters]`: patterns, whether they are regexes, and how they combine.
#[derive(Debug, Clone)]
pub struct FiltersSection {
    pub patterns: Vec<String>,
    pub use_regex: bool,
    pub mode: MatchMode,
}

impl Default for FiltersSection {
    fn default() -> (f: Self)
        ensures
            f.patterns@.len() == 0,
            !f.use_regex,
            f.mode == MatchMode::Any,
    {
        FiltersSection { patterns: Vec::new(), use_regex: false, mode: MatchMode::Any }
    }
}

/// `[output]`: the sinks matched lines go to.
#[derive(Debug, Clone)]
pub struct OutputSection {
    /// When false, suppress the stdout sink (still useful with `file` only).
    pub stdout: bool,
    pub file: Option<String>,
}

/// The value of an omitted `[output].stdout`.
pub fn default_true() -> (b: bool)
    ensures
        b,
{
    true
}

impl Default for OutputSection {
    fn default() -> (o: Self)
        ensures
            o.stdout,
            o.file is None,
    {
        OutputSection { stdout: default_true(), file: None }
    }
}

/// The configuration file, section by section; an omitted section takes its default.
#[derive(Debug, Clone)]
pub struct FileConfig {
    pub source: SourceSection,
    pub filters: FiltersSection,
    pub output: OutputSection,
}

impl Default for FileConfig {
    fn default() -> (c: Self)
        ensures
            c.source.path is None,
            c.filters.patterns@.len() == 0,
            !c.filters.use_regex,
            c.filters.mode == MatchMode::Any,
            c.output.stdout,
            c.output.file is None,
    {
        FileConfig {
            source: SourceSection::default(),
            filters: FiltersSection::default(),
            output: OutputSection::default(),
        }
    }
}

/// Why arguments and configuration do not make a complete setup.
#[derive(Debug, PartialEq, Eq)]
pub enum ConfigError {
    /// Neither the `FILE` positional nor `[source].path` gives a log file.
    MissingFilePath,
    /// Neither the `KEYWORD` positional nor a config file gives a filter.
    MissingFilter,
    /// This filter pattern is not a valid regex.
    InvalidFilterRegex(String),
}

/// Fully resolved paths and filter after merging the arguments with the optional config.
#[derive(Debug, Clone)]
pub struct ResolvedConfig {
    pub file_path: String,
    pub matcher: LineMatcher,
    pub stdout: bool,
    pub output_file: Option<String>,
}

/// The log file: the positional wins over `[source].path`.
pub open spec fn chosen_path(args: Args, cfg: Option<FileConfig>) -> Option<Seq<char>> {
    match args.file_path {
        Some(p) => Some(p@),
        None => match cfg {
            Some(c) => opt_view(c.source.path),
            None => None,
        },
    }
}

/// The filter: the keyword positional wins; then non-empty `[filters].patterns`; a config
/// file without patterns matches every line; with neither there is no filter.
pub open spec fn chosen_filter(args: Args, cfg: Option<FileConfig>) -> Option<MatcherModel> {
    match args.keyword {
        Some(k) => Some(MatcherModel { patterns: seq![k@], use_regex: false, mode: MatchMode::Any }),
        None => match cfg {
            Some(c) => if c.filters.patterns@.len() > 0 {
                Some(
                    MatcherModel {
                        patterns: c.filters.patterns.deep_view(),
                        use_regex: c.filters.use_regex,
                        mode: c.filters.mode,
                    },
                )
            } else {
                Some(MatcherModel { patterns: Seq::empty(), use_regex: false, mode: MatchMode::Any })
            },
            None => None,
        },
    }
}

/// Whether matched lines go to stdout (`[output].stdout`, on by default), and the optional
/// output file: the `--output` argument wins over `[output].file`.
pub open spec fn chosen_output(args: Args, cfg: Option<FileConfig>) -> (bool, Option<Seq<char>>) {
    let stdout = match cfg {
        Some(c) => c.output.stdout,
        None => true,
    };
    let file = match args.output {
        Some(o) => Some(o@),
        None => match cfg {
            Some(c) => opt_view(c.output.file),
            None => None,
        },
    };
    (stdout, file)
}

impl ResolvedConfig {
    /// Merge the arguments with the configuration file, when one was given and loaded.
    pub fn resolve(args: &Args, file_cfg: Option<FileConfig>) -> (r: Result<Self, ConfigError>)
        ensures
            chosen_path(*args, file_cfg) is None ==> r == Err::<Self, ConfigError>(
                ConfigError::MissingFilePath,
            ),
            chosen_path(*args, file_cfg) is Some && chosen_filter(*args, file_cfg) is None ==> r
                == Err::<Self, ConfigError>(ConfigError::MissingFilter),
            r is Ok <==> chosen_path(*args, file_cfg) is Some && chosen_filter(*args, file_cfg) is Some
                && model_wf(chosen_filter(*args, file_cfg)->0),
            r matches Ok(rc) ==> {
                &&& Some(rc.file_path@) == chosen_path(*args, file_cfg)
                &&& Some(rc.matcher@) == chosen_filter(*args, file_cfg)
                &&& rc.stdout == chosen_output(*args, file_cfg).0
                &&& opt_view(rc.output_file) == chosen_output(*args, file_cfg).1
            },
            chosen_path(*args, file_cfg) is Some && chosen_filter(*args, file_cfg) is Some
                && !model_wf(chosen_filter(*args, file_cfg)->0) ==> r is Err && r->Err_0 is InvalidFilterRegex,
            r matches Err(ConfigError::InvalidFilterRegex(p)) ==> chosen_filter(
                *args,
                file_cfg,
            ) matches Some(m) && exists|i: int|
                is_first_refused(m.patterns, i) && p@ == #[trigger] m.patterns[i],
    {
        let file_path = match &args.file_path {
            Some(p) => p.clone(),
            None => match &file_cfg {
                Some(c) => match &c.source.path {
                    Some(p) => p.clone(),
                    None => {
                        return Err(ConfigError::MissingFilePath);
                    },
                },
                None => {
                    return Err(ConfigError::MissingFilePath);
                },
            },
        };
        let (patterns, use_regex, mode) = match &args.keyword {
            Some(kw) => {
                let mut v: Vec<String> = Vec::new();
                v.push(kw.clone());
                proof {
                    assert(v.deep_view() =~= seq![kw@]);
                }
                (v, false, MatchMode::Any)
            },
            None => match &file_cfg {
                Some(c) => {
                    if c.filters.patterns.len() > 0 {
                        (clone_strings(&c.filters.patterns), c.filters.use_regex, c.filters.mode)
                    } else {
                        let v: Vec<String> = Vec::new();
                        proof {
                            assert(v.deep_view() =~= Seq::<Seq<char>>::empty());
                        }
                        (v, false, MatchMode::Any)
                    }
                },
                None => {
                    return Err(ConfigError::MissingFilter);
                },
            },
        };
        let matcher = match LineMatcher::from_options(patterns, use_regex, mode) {
            Ok(m) => m,
            Err(MatcherError::InvalidRegex(p)) => {
                return Err(ConfigError::InvalidFilterRegex(p));
            },
        };
        let stdout = match &file_cfg {
            Some(c) => c.output.stdout,
            None => true,
        };
        let output_file = match &args.output {
            Some(o) => Some(o.clone()),
            None => match &file_cfg {
                Some(c) => clone_opt_string(&c.output.file),
                None => None,
            },
        };
        Ok(ResolvedConfig { file_path, matcher, stdout, output_file })
    }
}


/// A log file given on the command line wins over `[source].path`.
pub proof fn law_cli_path_overrides_config(args: Args, cfg: Option<FileConfig>)
    requires
        args.file_path is Some,
    ensures
        chosen_path(args, cfg) == Some(args.file_path->0@),
{
}

/// Without the positional, the path comes from `[source].path`, and without both there is none.
pub proof fn law_path_falls_back_to_config(args: Args, cfg: Option<FileConfig>)
    requires
        args.file_path is None,
    ensures
        chosen_path(args, cfg) == match cfg {
            Some(c) => opt_view(c.source.path),
            None => None,
        },
{
}

/// A keyword given on the command line replaces the configured patterns: exactly the lines
/// containing it are accepted.
pub proof fn law_keyword_overrides_config_patterns(
    args: Args,
    cfg: Option<FileConfig>,
    line: Seq<char>,
)
    requires
        args.keyword is Some,
    ensures
        chosen_filter(args, cfg) == Some(keyword_model(args.keyword->0@)),
        model_matches(chosen_filter(args, cfg)->0, line) == seq_contains(line, args.keyword->0@),
{
    law_keyword_matches_containing_lines(args.keyword->0@, line);
}

/// A configuration file without patterns, and no keyword, accepts every line.
pub proof fn law_config_without_patterns_matches_all(
    args: Args,
    c: FileConfig,
    line: Seq<char>,
)
    requires
        args.keyword is None,
        c.filters.patterns@.len() == 0,
    ensures
        chosen_filter(args, Some(c)) is Some,
        model_matches(chosen_filter(args, Some(c))->0, line),
{
}

/// Without a keyword and without a configuration file there is no filter.
pub proof fn law_filter_needs_keyword_or_config(args: Args)
    requires
        args.keyword is None,
    ensures
        chosen_filter(args, None) is None,
{
}


/// An output file given on the command line wins over `[output].file`.
pub proof fn law_cli_output_overrides_config(args: Args, cfg: Option<FileConfig>)
    requires
        args.output is Some,
    ensures
        chosen_output(args, cfg).1 == Some(args.output->0@),
{
}

/// Without a keyword, non-empty `[filters].patterns` are kept as configured: the filter has
/// exactly those patterns, that `use_regex` and that `mode`.
pub proof fn law_config_filters_kept(args: Args, c: FileConfig)
    requires
        args.keyword is None,
        c.filters.patterns@.len() > 0,
    ensures
        chosen_filter(args, Some(c)) == Some(
            MatcherModel {
                patterns: c.filters.patterns.deep_view(),
                use_regex: c.filters.use_regex,
                mode: c.filters.mode,
            },
        ),
{
}

/// Without a keyword, configured substring patterns in `all` mode accept a line exactly when
/// it contains every one of them; in `any` mode, exactly when it contains one of them.
pub proof fn law_config_substring_modes(args: Args, c: FileConfig, line: Seq<char>)
    requires
        args.keyword is None,
        c.filters.patterns@.len() > 0,
        !c.filters.use_regex,
    ensures
        c.filters.mode == MatchMode::All ==> (model_matches(chosen_filter(args, Some(c))->0, line)
            <==> forall|i: int|
            0 <= i < c.filters.patterns@.len() ==> #[trigger] seq_contains(
                line,
                c.filters.patterns.deep_view()[i],
            )),
        c.filters.mode == MatchMode::Any ==> (model_matches(chosen_filter(args, Some(c))->0, line)
            <==> exists|i: int|
            0 <= i < c.filters.patterns@.len() && #[trigger] seq_contains(
                line,
                c.filters.patterns.deep_view()[i],
            )),
{
    law_substring_matcher_searches_whole_line(c.filters.patterns.deep_view(), line);
}

} // verus!
