//! The command line's options, their checks, and the run configuration
//! made from them.
use vstd::prelude::*;
use vstd::string::StringExecFns;
use std::path::PathBuf;
use crate::error::CliError;
use crate::models::{ProcessingMode, Source, all_sources, source_display};
use crate::text::{
    chars_of, decimal, equals_str, push_decimal, push_str, string_of, utf8_len, utf8_longer_than,
};

verus! {

/// The parsed command-line options.
#[derive(Debug)]
pub struct CliArgs {
    /// Root directory containing movie folders
    pub root_directory: PathBuf,
    /// Ignore done markers and reprocess all movies
    pub force: bool,
    /// Discovery sources to query
    pub sources: Vec<Source>,
    /// Use all available discovery sources
    pub all: bool,
    /// Maximum number of movies processed concurrently
    pub concurrency: usize,
    /// Verbose logging
    pub verbose: bool,
    /// Process a single movie folder directly
    pub single: bool,
    /// Process only TV series
    pub series_only: bool,
    /// Process only movies
    pub movies_only: bool,
    /// Season-specific extras discovery
    pub season_extras: bool,
    /// Season 0 specials discovery
    pub specials: bool,
    /// Folder name for Season 0 specials
    pub specials_folder: String,
    /// Forced classification: `movie` or `series` (the `--type` option)
    pub media_type: Option<String>,
    /// Browser for yt-dlp cookie authentication
    pub cookies_from_browser: Option<String>,
    /// Discover without downloading, converting or organizing
    pub dry_run: bool,
    /// Line-delimited JSON progress output
    pub json_progress: bool,
    /// Split-pane terminal interface
    pub tui: bool,
    /// The removed `--mode` option, when given
    pub mode: Option<String>,
}

/// The run configuration.
#[derive(Debug, Clone)]
pub struct CliConfig {
    pub root_directory: PathBuf,
    pub force: bool,
    pub sources: Vec<Source>,
    pub concurrency: usize,
    pub verbose: bool,
    pub single: bool,
    pub processing_mode: ProcessingMode,
    pub season_extras: bool,
    pub specials: bool,
    pub specials_folder: String,
    pub media_type: Option<String>,
    pub cookies_from_browser: Option<String>,
    pub dry_run: bool,
    pub json_progress: bool,
    pub tui: bool,
}

/// What the file system says of the root directory.
#[derive(Debug, Clone, Copy, PartialEq, Eq, Structural)]
pub enum RootState {
    Missing,
    NotDirectory,
    Directory,
}

/// Series only, movies only, or both.
pub open spec fn processing_mode_of(series_only: bool, movies_only: bool) -> ProcessingMode {
    if series_only {
        ProcessingMode::SeriesOnly
    } else if movies_only {
        ProcessingMode::MoviesOnly
    } else {
        ProcessingMode::Both
    }
}

/// The error the checks of the options draw, if any, in the order they are
/// made: the root directory, the concurrency, the two exclusive modes, the
/// `--type` value.
pub open spec fn validation_error(args: CliArgs, root: RootState, root_shown: Seq<char>) -> Option<
    (CliErrorVariant, Seq<char>),
> {
    if root == RootState::Missing {
        Some((CliErrorVariant::InvalidRootDir, "Directory does not exist: "@ + root_shown))
    } else if root == RootState::NotDirectory {
        Some((CliErrorVariant::InvalidRootDir, "Path is not a directory: "@ + root_shown))
    } else if args.concurrency == 0 {
        Some((CliErrorVariant::InvalidConcurrency, "Concurrency must be at least 1"@))
    } else if args.series_only && args.movies_only {
        Some((CliErrorVariant::ParseError, "--series-only and --movies-only are mutually exclusive"@))
    } else {
        match args.media_type {
            Some(t) => if t@ == "movie"@ || t@ == "series"@ {
                None
            } else {
                Some(
                    (
                        CliErrorVariant::ParseError,
                        "Invalid --type value: '"@ + t@ + "'. Must be 'movie' or 'series'"@,
                    ),
                )
            },
            None => None,
        }
    }
}

/// The error the options draw, if any: the removed `--mode` option first,
/// then the checks of `validation_error`.
pub open spec fn args_error(args: CliArgs, root: RootState, root_shown: Seq<char>) -> Option<
    (CliErrorVariant, Seq<char>),
> {
    if args.mode is Some {
        Some((CliErrorVariant::DeprecatedFlag, "The --mode flag has been removed. Use --sources instead."@))
    } else {
        validation_error(args, root, root_shown)
    }
}

/// The variants of `CliError`, without their messages.
#[derive(Debug, Clone, Copy, PartialEq, Eq, Structural)]
pub enum CliErrorVariant {
    InvalidRootDir,
    ParseError,
    InvalidConcurrency,
    DeprecatedFlag,
}

/// The error is of the given variant and carries the given message.
pub open spec fn is_cli_error(e: CliError, variant: CliErrorVariant, message: Seq<char>) -> bool {
    match e {
        CliError::InvalidRootDir(m) => variant == CliErrorVariant::InvalidRootDir && m@ == message,
        CliError::ParseError(m) => variant == CliErrorVariant::ParseError && m@ == message,
        CliError::InvalidConcurrency(m) => variant == CliErrorVariant::InvalidConcurrency && m@
            == message,
        CliError::DeprecatedFlag(m) => variant == CliErrorVariant::DeprecatedFlag && m@ == message,
    }
}

fn joined(a: &str, b: &str, c: &str) -> (r: String)
    ensures
        r@ == a@ + b@ + c@,
{
    let mut v: Vec<char> = Vec::new();
    push_str(&mut v, a);
    push_str(&mut v, b);
    push_str(&mut v, c);
    string_of(&v)
}

fn joined2(a: &str, b: &str) -> (r: String)
    ensures
        r@ == a@ + b@,
{
    let mut v: Vec<char> = Vec::new();
    push_str(&mut v, a);
    push_str(&mut v, b);
    string_of(&v)
}

/// `c` is the run configuration of the options `args`: every option
/// carried over as given, series-only winning over movies-only, and `--all`
/// standing for every source but Bilibili.
pub open spec fn is_config_for(c: CliConfig, args: CliArgs) -> bool {
    &&& c.root_directory == args.root_directory
    &&& c.force == args.force
    &&& c.sources@ == (if args.all {
        seq![Source::Tmdb, Source::Archive, Source::Dailymotion, Source::Youtube, Source::Vimeo]
    } else {
        args.sources@
    })
    &&& c.concurrency == args.concurrency
    &&& c.verbose == args.verbose
    &&& c.single == args.single
    &&& c.processing_mode == processing_mode_of(args.series_only, args.movies_only)
    &&& c.season_extras == args.season_extras
    &&& c.specials == args.specials
    &&& c.specials_folder == args.specials_folder
    &&& c.media_type == args.media_type
    &&& c.cookies_from_browser == args.cookies_from_browser
    &&& c.dry_run == args.dry_run
    &&& c.json_progress == args.json_progress
    &&& c.tui == args.tui
}

impl CliConfig {
    /// The run configuration of the options: series-only wins over
    /// movies-only, and `--all` stands for every source but Bilibili.
    pub fn from_args(args: CliArgs) -> (r: CliConfig)
        ensures
            is_config_for(r, args),
    {
        let processing_mode = if args.series_only {
            ProcessingMode::SeriesOnly
        } else if args.movies_only {
            ProcessingMode::MoviesOnly
        } else {
            ProcessingMode::Both
        };
        let sources = if args.all {
            all_sources()
        } else {
            args.sources
        };
        CliConfig {
            root_directory: args.root_directory,
            force: args.force,
            sources,
            concurrency: args.concurrency,
            verbose: args.verbose,
            single: args.single,
            processing_mode,
            season_extras: args.season_extras,
            specials: args.specials,
            specials_folder: args.specials_folder,
            media_type: args.media_type,
            cookies_from_browser: args.cookies_from_browser,
            dry_run: args.dry_run,
            json_progress: args.json_progress,
            tui: args.tui,
        }
    }
}

/// Checks the options: the root directory must exist and be a directory,
/// the concurrency at least 1, series-only and movies-only not both, and a
/// `--type` value `movie` or `series`. `root_shown` is how the root path is
/// quoted in messages.
pub fn validate_config(args: &CliArgs, root: RootState, root_shown: &str) -> (r: Result<
    (),
    CliError,
>)
    ensures
        match validation_error(*args, root, root_shown@) {
            Some((k, m)) => r matches Err(e) && is_cli_error(e, k, m),
            None => r is Ok,
        },
{
    match root {
        RootState::Missing => {
            return Err(CliError::InvalidRootDir(joined2("Directory does not exist: ", root_shown)));
        },
        RootState::NotDirectory => {
            return Err(CliError::InvalidRootDir(joined2("Path is not a directory: ", root_shown)));
        },
        RootState::Directory => {},
    }
    if args.concurrency == 0 {
        return Err(CliError::InvalidConcurrency(String::from_str("Concurrency must be at least 1")));
    }
    if args.series_only && args.movies_only {
        return Err(
            CliError::ParseError(
                String::from_str("--series-only and --movies-only are mutually exclusive"),
            ),
        );
    }
    match &args.media_type {
        Some(t) => {
            let tc = chars_of(t.as_str());
            if !(equals_str(&tc, "movie") || equals_str(&tc, "series")) {
                return Err(
                    CliError::ParseError(
                        joined("Invalid --type value: '", t.as_str(), "'. Must be 'movie' or 'series'"),
                    ),
                );
            }
        },
        None => {},
    }
    Ok(())
}

/// The run configuration for the parsed options, or the error they draw:
/// the removed `--mode` option first, then the checks of `validate_config`.
pub fn parse_args(args: CliArgs, root: RootState, root_shown: &str) -> (r: Result<
    CliConfig,
    CliError,
>)
    ensures
        match args_error(args, root, root_shown@) {
            Some((k, m)) => r matches Err(e) && is_cli_error(e, k, m),
            None => r matches Ok(c) && is_config_for(c, args),
        },
{
    if args.mode.is_some() {
        return Err(
            CliError::DeprecatedFlag(
                String::from_str("The --mode flag has been removed. Use --sources instead."),
            ),
        );
    }
    match validate_config(&args, root, root_shown) {
        Err(e) => Err(e),
        Ok(()) => Ok(CliConfig::from_args(args)),
    }
}

// ---------------------------------------------------------------------------
// The configuration shown before a run.
// ---------------------------------------------------------------------------

/// How a shown value is emphasised: not at all, dimmed white, as a notice
/// (yellow) or as an accent (cyan).
#[derive(Debug, Clone, Copy, PartialEq, Eq, Structural)]
pub enum Emphasis {
    Plain,
    Quiet,
    Notice,
    Accent,
}

/// One line of the configuration display: a label and its value.
#[derive(Debug, Clone)]
pub struct ConfigRow {
    pub label: String,
    pub value: String,
    pub emphasis: Emphasis,
}

impl View for ConfigRow {
    type V = (Seq<char>, Seq<char>, Emphasis);

    open spec fn view(&self) -> (Seq<char>, Seq<char>, Emphasis) {
        (self.label@, self.value@, self.emphasis)
    }
}

/// The source names joined by `, `.
pub open spec fn joined_sources(s: Seq<Source>) -> Seq<char>
    decreases s.len(),
{
    if s.len() == 0 {
        seq![]
    } else if s.len() == 1 {
        source_display(s[0])
    } else {
        joined_sources(s.drop_last()) + ", "@ + source_display(s.last())
    }
}

/// A yes/no row: `Yes` as a notice, `No` dimmed.
pub open spec fn yes_no_row(label: Seq<char>, b: bool) -> (Seq<char>, Seq<char>, Emphasis) {
    if b {
        (label, "Yes"@, Emphasis::Notice)
    } else {
        (label, "No"@, Emphasis::Quiet)
    }
}

/// The display name of a processing mode.
pub open spec fn processing_mode_display(m: ProcessingMode) -> Seq<char> {
    match m {
        ProcessingMode::Both => "Both"@,
        ProcessingMode::MoviesOnly => "Movies Only"@,
        ProcessingMode::SeriesOnly => "Series Only"@,
    }
}

/// The rows of the configuration display, in order: root directory (as
/// `root_shown`), sources, single folder, force, concurrency, verbose,
/// processing mode, season extras, specials; then the specials folder when
/// specials are on, the media type and the cookie browser when set, and a
/// dry-run notice when it is a dry run.
pub open spec fn config_rows_of(c: CliConfig, root_shown: Seq<char>) -> Seq<
    (Seq<char>, Seq<char>, Emphasis),
> {
    let base = seq![
        ("Root Directory:"@, root_shown, Emphasis::Plain),
        ("Sources:"@, joined_sources(c.sources@), Emphasis::Accent),
        yes_no_row("Single Folder:"@, c.single),
        yes_no_row("Force Reprocess:"@, c.force),
        ("Concurrency:"@, decimal(c.concurrency as nat), Emphasis::Plain),
        yes_no_row("Verbose:"@, c.verbose),
        ("Processing Mode:"@, processing_mode_display(c.processing_mode), Emphasis::Plain),
        yes_no_row("Season Extras:"@, c.season_extras),
        yes_no_row("Specials:"@, c.specials),
    ];
    let with_folder = if c.specials {
        base.push(("Specials Folder:"@, c.specials_folder@, Emphasis::Accent))
    } else {
        base
    };
    let with_type = match c.media_type {
        Some(t) => with_folder.push(("Media Type:"@, t@, Emphasis::Notice)),
        None => with_folder,
    };
    let with_cookies = match c.cookies_from_browser {
        Some(b) => with_type.push(("Cookies From:"@, b@, Emphasis::Accent)),
        None => with_type,
    };
    if c.dry_run {
        with_cookies.push(("Dry Run:"@, "Yes (discovery only)"@, Emphasis::Notice))
    } else {
        with_cookies
    }
}

fn row(label: &str, value: String, emphasis: Emphasis) -> (r: ConfigRow)
    ensures
        r@ == (label@, value@, emphasis),
{
    ConfigRow { label: String::from_str(label), value, emphasis }
}

fn yes_no(label: &str, b: bool) -> (r: ConfigRow)
    ensures
        r@ == yes_no_row(label@, b),
{
    if b {
        row(label, String::from_str("Yes"), Emphasis::Notice)
    } else {
        row(label, String::from_str("No"), Emphasis::Quiet)
    }
}

/// The source names joined by `, `.
fn sources_text(sources: &Vec<Source>) -> (r: String)
    ensures
        r@ == joined_sources(sources@),
{
    let mut v: Vec<char> = Vec::new();
    let mut i: usize = 0;
    while i < sources.len()
        invariant
            i <= sources.len(),
            v@ == joined_sources(sources@.take(i as int)),
        decreases sources.len() - i,
    {
        assert(sources@.take(i + 1).drop_last() =~= sources@.take(i as int));
        if i > 0 {
            push_str(&mut v, ", ");
        } else {
            assert(sources@.take(0) =~= Seq::<Source>::empty());
        }
        let name = sources[i].display_string();
        push_str(&mut v, name.as_str());
        assert(sources@.take(i + 1).last() == sources@[i as int]);
        assert(sources@.take(i + 1)[0] == sources@[0]);
        i = i + 1;
    }
    assert(sources@.take(sources.len() as int) =~= sources@);
    string_of(&v)
}

impl CliConfig {
    /// The rows of the configuration display (see `config_rows_of`), the
    /// root directory written as `root_shown`.
    #[verifier::spinoff_prover]
    #[verifier::rlimit(30)]
    pub fn config_rows(&self, root_shown: &str) -> (r: Vec<ConfigRow>)
        ensures
            r@.len() == config_rows_of(*self, root_shown@).len(),
            forall|i: int| 0 <= i < r@.len() ==> (#[trigger] r@[i])@ == config_rows_of(*self, root_shown@)[i],
    {
        let mut rows: Vec<ConfigRow> = Vec::new();
        rows.push(row("Root Directory:", String::from_str(root_shown), Emphasis::Plain));
        rows.push(row("Sources:", sources_text(&self.sources), Emphasis::Accent));
        rows.push(yes_no("Single Folder:", self.single));
        rows.push(yes_no("Force Reprocess:", self.force));
        let mut n: Vec<char> = Vec::new();
        push_decimal(&mut n, self.concurrency as u64);
        rows.push(row("Concurrency:", string_of(&n), Emphasis::Plain));
        rows.push(yes_no("Verbose:", self.verbose));
        rows.push(row("Processing Mode:", self.processing_mode.display_string(), Emphasis::Plain));
        rows.push(yes_no("Season Extras:", self.season_extras));
        rows.push(yes_no("Specials:", self.specials));
        let ghost base = Seq::new(rows@.len(), |i: int| rows@[i]@);
        if self.specials {
            rows.push(row("Specials Folder:", self.specials_folder.clone(), Emphasis::Accent));
        }
        let ghost folder = Seq::new(rows@.len(), |i: int| rows@[i]@);
        match &self.media_type {
            Some(t) => {
                rows.push(row("Media Type:", t.clone(), Emphasis::Notice));
            },
            None => {},
        }
        let ghost typed = Seq::new(rows@.len(), |i: int| rows@[i]@);
        match &self.cookies_from_browser {
            Some(b) => {
                rows.push(row("Cookies From:", b.clone(), Emphasis::Accent));
            },
            None => {},
        }
        let ghost cookies = Seq::new(rows@.len(), |i: int| rows@[i]@);
        if self.dry_run {
            rows.push(row("Dry Run:", String::from_str("Yes (discovery only)"), Emphasis::Notice));
        }
        let ghost all = Seq::new(rows@.len(), |i: int| rows@[i]@);
        assert(all =~= config_rows_of(*self, root_shown@));
        rows
    }
}

/// The display always shows the root directory, the sources, the force
/// flag, the concurrency and the verbose flag, in that order among its
/// first six rows.
pub proof fn law_config_display_complete(c: CliConfig, root_shown: Seq<char>)
    ensures
        config_rows_of(c, root_shown).len() >= 9,
        config_rows_of(c, root_shown)[0] == ("Root Directory:"@, root_shown, Emphasis::Plain),
        config_rows_of(c, root_shown)[1].1 == joined_sources(c.sources@),
        config_rows_of(c, root_shown)[3] == yes_no_row("Force Reprocess:"@, c.force),
        config_rows_of(c, root_shown)[4].1 == decimal(c.concurrency as nat),
        config_rows_of(c, root_shown)[5] == yes_no_row("Verbose:"@, c.verbose),
{
}

/// Inner width of the start-up banner, between its borders.
pub const BANNER_WIDTH: usize = 59;

/// The spaces left and right of a text centred in the banner, by its byte
/// length: half the room (rounded down) on the left, the rest on the right.
pub fn banner_padding(text: &str) -> (r: (usize, usize))
    requires
        utf8_len(text@) <= BANNER_WIDTH,
    ensures
        r.0 == (BANNER_WIDTH - utf8_len(text@)) / 2,
        r.0 + utf8_len(text@) + r.1 == BANNER_WIDTH,
{
    let cs = chars_of(text);
    let mut n: usize = 0;
    while n < BANNER_WIDTH && utf8_longer_than(&cs, n)
        invariant
            n <= BANNER_WIDTH,
            cs@ == text@,
            utf8_len(text@) <= BANNER_WIDTH,
            n <= utf8_len(text@),
        decreases BANNER_WIDTH - n,
    {
        n = n + 1;
    }
    let left = (BANNER_WIDTH - n) / 2;
    (left, BANNER_WIDTH - left - n)
}

} // verus!
