//! The library's error types, each with the message it displays.
use vstd::prelude::*;
use vstd::string::StringExecFns;
use std::path::PathBuf;
use crate::text::{chars_of, decimal, push_decimal, push_str, starts_with_seq, string_of};

verus! {

#[verifier::external_type_specification]
#[verifier::external_body]
pub struct ExIoError(std::io::Error);

#[verifier::external_type_specification]
#[verifier::external_body]
pub struct ExReqwestError(reqwest::Error);

#[verifier::external_type_specification]
#[verifier::external_body]
pub struct ExJsonError(serde_json::Error);

/// The text of an I/O error (`Display` of `std::io::Error`). It describes
/// the operating system's error, so nothing is stated of it.
#[verifier::external_body]
fn io_error_text(e: &std::io::Error) -> (r: String) {
    e.to_string()
}

/// The text of an HTTP client error (`Display` of `reqwest::Error`); it
/// describes a network failure, so nothing is stated of it.
#[verifier::external_body]
fn reqwest_error_text(e: &reqwest::Error) -> (r: String) {
    e.to_string()
}

/// The text of a JSON error (`Display` of `serde_json::Error`), which
/// nothing here describes.
#[verifier::external_body]
fn json_error_text(e: &serde_json::Error) -> (r: String) {
    e.to_string()
}

/// The text of a path (`Path::display`); a path is opaque here, so nothing
/// is stated of it.
#[verifier::external_body]
fn path_text(p: &PathBuf) -> (r: String) {
    p.display().to_string()
}

fn prefixed(prefix: &str, rest: &str) -> (r: String)
    ensures
        r@ == prefix@ + rest@,
        starts_with_seq(r@, prefix@),
{
    let mut v: Vec<char> = Vec::new();
    push_str(&mut v, prefix);
    push_str(&mut v, rest);
    assert((prefix@ + rest@).take(prefix@.len() as int) =~= prefix@);
    string_of(&v)
}

/// Errors of the command line.
#[derive(Debug)]
pub enum CliError {
    InvalidRootDir(String),
    ParseError(String),
    InvalidConcurrency(String),
    DeprecatedFlag(String),
}

impl CliError {
    /// The message the error displays.
    pub fn message(&self) -> (r: String)
        ensures
            self matches CliError::InvalidRootDir(s) ==> r@ == "Invalid root directory: "@ + s@,
            self matches CliError::ParseError(s) ==> r@ == "Parse error: "@ + s@,
            self matches CliError::InvalidConcurrency(s) ==> r@ == "Invalid concurrency: "@ + s@,
            self matches CliError::DeprecatedFlag(s) ==> r@ == "Deprecated flag: "@ + s@,
    {
        match self {
            CliError::InvalidRootDir(s) => prefixed("Invalid root directory: ", s.as_str()),
            CliError::ParseError(s) => prefixed("Parse error: ", s.as_str()),
            CliError::InvalidConcurrency(s) => prefixed("Invalid concurrency: ", s.as_str()),
            CliError::DeprecatedFlag(s) => prefixed("Deprecated flag: ", s.as_str()),
        }
    }
}

/// Errors of the library scan.
#[derive(Debug)]
pub enum ScanError {
    Io(std::io::Error),
    InvalidFolderName(String),
}

impl ScanError {
    /// The message the error displays.
    pub fn message(&self) -> (r: String)
        ensures
            self is Io ==> starts_with_seq(r@, "IO error: "@),
            self matches ScanError::InvalidFolderName(s) ==> r@ == "Invalid folder name: "@ + s@,
    {
        match self {
            ScanError::Io(e) => {
                let t = io_error_text(e);
                prefixed("IO error: ", t.as_str())
            },
            ScanError::InvalidFolderName(s) => prefixed("Invalid folder name: ", s.as_str()),
        }
    }
}

impl From<std::io::Error> for ScanError {
    fn from(e: std::io::Error) -> (r: Self) {
        ScanError::Io(e)
    }
}

impl vstd::std_specs::convert::FromSpecImpl<std::io::Error> for ScanError {
    open spec fn obeys_from_spec() -> bool {
        true
    }

    open spec fn from_spec(e: std::io::Error) -> Self {
        ScanError::Io(e)
    }
}

/// Errors of content discovery.
#[derive(Debug)]
pub enum DiscoveryError {
    ApiError(String),
    NetworkError(reqwest::Error),
    YtDlpError(String),
    TvdbAuthError(String),
    TvdbApiError(String),
}

impl DiscoveryError {
    /// The message the error displays.
    pub fn message(&self) -> (r: String)
        ensures
            self matches DiscoveryError::ApiError(s) ==> r@ == "API error: "@ + s@,
            self is NetworkError ==> starts_with_seq(r@, "Network error: "@),
            self matches DiscoveryError::YtDlpError(s) ==> r@ == "yt-dlp error: "@ + s@,
            self matches DiscoveryError::TvdbAuthError(s) ==> r@ == "TVDB authentication failed: "@ + s@,
            self matches DiscoveryError::TvdbApiError(s) ==> r@ == "TVDB API error: "@ + s@,
    {
        match self {
            DiscoveryError::ApiError(s) => prefixed("API error: ", s.as_str()),
            DiscoveryError::NetworkError(e) => {
                let t = reqwest_error_text(e);
                prefixed("Network error: ", t.as_str())
            },
            DiscoveryError::YtDlpError(s) => prefixed("yt-dlp error: ", s.as_str()),
            DiscoveryError::TvdbAuthError(s) => prefixed("TVDB authentication failed: ", s.as_str()),
            DiscoveryError::TvdbApiError(s) => prefixed("TVDB API error: ", s.as_str()),
        }
    }
}

impl From<reqwest::Error> for DiscoveryError {
    fn from(e: reqwest::Error) -> (r: Self) {
        DiscoveryError::NetworkError(e)
    }
}

impl vstd::std_specs::convert::FromSpecImpl<reqwest::Error> for DiscoveryError {
    open spec fn obeys_from_spec() -> bool {
        true
    }

    open spec fn from_spec(e: reqwest::Error) -> Self {
        DiscoveryError::NetworkError(e)
    }
}

/// Errors of downloading.
#[derive(Debug)]
pub enum DownloadError {
    YtDlpFailed(String),
    Timeout,
    Io(std::io::Error),
}

impl DownloadError {
    /// The message the error displays.
    pub fn message(&self) -> (r: String)
        ensures
            self matches DownloadError::YtDlpFailed(s) ==> r@ == "yt-dlp failed: "@ + s@,
            self matches DownloadError::Timeout ==> r@ == "Timeout"@,
            self is Io ==> starts_with_seq(r@, "IO error: "@),
    {
        match self {
            DownloadError::YtDlpFailed(s) => prefixed("yt-dlp failed: ", s.as_str()),
            DownloadError::Timeout => String::from_str("Timeout"),
            DownloadError::Io(e) => {
                let t = io_error_text(e);
                prefixed("IO error: ", t.as_str())
            },
        }
    }
}

impl From<std::io::Error> for DownloadError {
    fn from(e: std::io::Error) -> (r: Self) {
        DownloadError::Io(e)
    }
}

impl vstd::std_specs::convert::FromSpecImpl<std::io::Error> for DownloadError {
    open spec fn obeys_from_spec() -> bool {
        true
    }

    open spec fn from_spec(e: std::io::Error) -> Self {
        DownloadError::Io(e)
    }
}

/// Errors of conversion.
#[derive(Debug)]
pub enum ConversionError {
    FfmpegFailed(String),
    Io(std::io::Error),
}

impl ConversionError {
    /// The message the error displays.
    pub fn message(&self) -> (r: String)
        ensures
            self matches ConversionError::FfmpegFailed(s) ==> r@ == "ffmpeg failed: "@ + s@,
            self is Io ==> starts_with_seq(r@, "IO error: "@),
    {
        match self {
            ConversionError::FfmpegFailed(s) => prefixed("ffmpeg failed: ", s.as_str()),
            ConversionError::Io(e) => {
                let t = io_error_text(e);
                prefixed("IO error: ", t.as_str())
            },
        }
    }
}

impl From<std::io::Error> for ConversionError {
    fn from(e: std::io::Error) -> (r: Self) {
        ConversionError::Io(e)
    }
}

impl vstd::std_specs::convert::FromSpecImpl<std::io::Error> for ConversionError {
    open spec fn obeys_from_spec() -> bool {
        true
    }

    open spec fn from_spec(e: std::io::Error) -> Self {
        ConversionError::Io(e)
    }
}

/// Errors of the start-up checks.
#[derive(Debug)]
pub enum ValidationError {
    MissingBinary(String),
    MissingApiKey(String),
    UnsupportedCodec,
}

impl ValidationError {
    /// The message the error displays.
    pub fn message(&self) -> (r: String)
        ensures
            self matches ValidationError::MissingBinary(s) ==> r@ == "Missing binary: "@ + s@,
            self matches ValidationError::MissingApiKey(s) ==> r@ == "Missing API key: "@ + s@,
            self matches ValidationError::UnsupportedCodec ==> r@ == "Unsupported codec"@,
    {
        match self {
            ValidationError::MissingBinary(s) => prefixed("Missing binary: ", s.as_str()),
            ValidationError::MissingApiKey(s) => prefixed("Missing API key: ", s.as_str()),
            ValidationError::UnsupportedCodec => String::from_str("Unsupported codec"),
        }
    }
}

/// Errors of organizing files.
#[derive(Debug)]
pub enum OrganizerError {
    Io(std::io::Error),
    SubdirectoryCreation(String),
    FileMove(String),
}

impl OrganizerError {
    /// The message the error displays.
    pub fn message(&self) -> (r: String)
        ensures
            self is Io ==> starts_with_seq(r@, "IO error: "@),
            self matches OrganizerError::SubdirectoryCreation(s) ==> r@ == "Failed to create subdirectory: "@ + s@,
            self matches OrganizerError::FileMove(s) ==> r@ == "Failed to move file: "@ + s@,
    {
        match self {
            OrganizerError::Io(e) => {
                let t = io_error_text(e);
                prefixed("IO error: ", t.as_str())
            },
            OrganizerError::SubdirectoryCreation(s) => prefixed("Failed to create subdirectory: ", s.as_str()),
            OrganizerError::FileMove(s) => prefixed("Failed to move file: ", s.as_str()),
        }
    }
}

impl From<std::io::Error> for OrganizerError {
    fn from(e: std::io::Error) -> (r: Self) {
        OrganizerError::Io(e)
    }
}

impl vstd::std_specs::convert::FromSpecImpl<std::io::Error> for OrganizerError {
    open spec fn obeys_from_spec() -> bool {
        true
    }

    open spec fn from_spec(e: std::io::Error) -> Self {
        OrganizerError::Io(e)
    }
}

/// Errors of the configuration file.
#[derive(Debug)]
pub enum ConfigError {
    ReadError(PathBuf, std::io::Error),
    ParseError(PathBuf, serde_json::Error),
    WriteError(PathBuf, std::io::Error),
    SerializeError(serde_json::Error),
    IoError(std::io::Error),
    EmptyApiKey,
}

impl ConfigError {
    /// The message the error displays.
    pub fn message(&self) -> (r: String)
        ensures
            self is ReadError ==> starts_with_seq(r@, "Failed to read config file "@),
            self is ParseError ==> starts_with_seq(r@, "Failed to parse config file "@),
            self is WriteError ==> starts_with_seq(r@, "Failed to write config file "@),
            self is SerializeError ==> starts_with_seq(r@, "Failed to serialize config: "@),
            self is IoError ==> starts_with_seq(r@, "IO error: "@),
            self matches ConfigError::EmptyApiKey ==> r@ == "API key cannot be empty"@,
    {
        match self {
            ConfigError::ReadError(p, e) => {
                let mut v: Vec<char> = Vec::new();
                push_str(&mut v, "Failed to read config file ");
                let pt = path_text(p);
                push_str(&mut v, pt.as_str());
                push_str(&mut v, ": ");
                let et = io_error_text(e);
                push_str(&mut v, et.as_str());
                assert(v@.take("Failed to read config file "@.len() as int) =~= "Failed to read config file "@);
                string_of(&v)
            },
            ConfigError::ParseError(p, e) => {
                let mut v: Vec<char> = Vec::new();
                push_str(&mut v, "Failed to parse config file ");
                let pt = path_text(p);
                push_str(&mut v, pt.as_str());
                push_str(&mut v, ": ");
                let et = json_error_text(e);
                push_str(&mut v, et.as_str());
                assert(v@.take("Failed to parse config file "@.len() as int) =~= "Failed to parse config file "@);
                string_of(&v)
            },
            ConfigError::WriteError(p, e) => {
                let mut v: Vec<char> = Vec::new();
                push_str(&mut v, "Failed to write config file ");
                let pt = path_text(p);
                push_str(&mut v, pt.as_str());
                push_str(&mut v, ": ");
                let et = io_error_text(e);
                push_str(&mut v, et.as_str());
                assert(v@.take("Failed to write config file "@.len() as int) =~= "Failed to write config file "@);
                string_of(&v)
            },
            ConfigError::SerializeError(e) => {
                let t = json_error_text(e);
                prefixed("Failed to serialize config: ", t.as_str())
            },
            ConfigError::IoError(e) => {
                let t = io_error_text(e);
                prefixed("IO error: ", t.as_str())
            },
            ConfigError::EmptyApiKey => String::from_str("API key cannot be empty"),
        }
    }
}

/// Errors of the processing run.
#[derive(Debug)]
pub enum OrchestratorError {
    Init(String),
    Processing(String),
}

impl OrchestratorError {
    /// The message the error displays.
    pub fn message(&self) -> (r: String)
        ensures
            self matches OrchestratorError::Init(s) ==> r@ == "Initialization error: "@ + s@,
            self matches OrchestratorError::Processing(s) ==> r@ == "Processing error: "@ + s@,
    {
        match self {
            OrchestratorError::Init(s) => prefixed("Initialization error: ", s.as_str()),
            OrchestratorError::Processing(s) => prefixed("Processing error: ", s.as_str()),
        }
    }
}

/// Errors of processing one movie.
#[derive(Debug)]
pub enum ProcessingError {
    Scan(ScanError),
    Discovery(DiscoveryError),
    Download(DownloadError),
    Conversion(ConversionError),
    Organizer(OrganizerError),
}

impl ProcessingError {
    /// The message the error displays.
    pub fn message(&self) -> (r: String)
        ensures
            self is Scan ==> starts_with_seq(r@, "Scan error: "@),
            self is Discovery ==> starts_with_seq(r@, "Discovery error: "@),
            self is Download ==> starts_with_seq(r@, "Download error: "@),
            self is Conversion ==> starts_with_seq(r@, "Conversion error: "@),
            self is Organizer ==> starts_with_seq(r@, "Organizer error: "@),
    {
        match self {
            ProcessingError::Scan(e) => {
                let t = e.message();
                prefixed("Scan error: ", t.as_str())
            },
            ProcessingError::Discovery(e) => {
                let t = e.message();
                prefixed("Discovery error: ", t.as_str())
            },
            ProcessingError::Download(e) => {
                let t = e.message();
                prefixed("Download error: ", t.as_str())
            },
            ProcessingError::Conversion(e) => {
                let t = e.message();
                prefixed("Conversion error: ", t.as_str())
            },
            ProcessingError::Organizer(e) => {
                let t = e.message();
                prefixed("Organizer error: ", t.as_str())
            },
        }
    }
}

impl From<ScanError> for ProcessingError {
    fn from(e: ScanError) -> (r: Self) {
        ProcessingError::Scan(e)
    }
}

impl vstd::std_specs::convert::FromSpecImpl<ScanError> for ProcessingError {
    open spec fn obeys_from_spec() -> bool {
        true
    }

    open spec fn from_spec(e: ScanError) -> Self {
        ProcessingError::Scan(e)
    }
}

impl From<DiscoveryError> for ProcessingError {
    fn from(e: DiscoveryError) -> (r: Self) {
        ProcessingError::Discovery(e)
    }
}

impl vstd::std_specs::convert::FromSpecImpl<DiscoveryError> for ProcessingError {
    open spec fn obeys_from_spec() -> bool {
        true
    }

    open spec fn from_spec(e: DiscoveryError) -> Self {
        ProcessingError::Discovery(e)
    }
}

impl From<DownloadError> for ProcessingError {
    fn from(e: DownloadError) -> (r: Self) {
        ProcessingError::Download(e)
    }
}

impl vstd::std_specs::convert::FromSpecImpl<DownloadError> for ProcessingError {
    open spec fn obeys_from_spec() -> bool {
        true
    }

    open spec fn from_spec(e: DownloadError) -> Self {
        ProcessingError::Download(e)
    }
}

impl From<ConversionError> for ProcessingError {
    fn from(e: ConversionError) -> (r: Self) {
        ProcessingError::Conversion(e)
    }
}

impl vstd::std_specs::convert::FromSpecImpl<ConversionError> for ProcessingError {
    open spec fn obeys_from_spec() -> bool {
        true
    }

    open spec fn from_spec(e: ConversionError) -> Self {
        ProcessingError::Conversion(e)
    }
}

impl From<OrganizerError> for ProcessingError {
    fn from(e: OrganizerError) -> (r: Self) {
        ProcessingError::Organizer(e)
    }
}

impl vstd::std_specs::convert::FromSpecImpl<OrganizerError> for ProcessingError {
    open spec fn obeys_from_spec() -> bool {
        true
    }

    open spec fn from_spec(e: OrganizerError) -> Self {
        ProcessingError::Organizer(e)
    }
}

/// Errors of the series scan.
#[derive(Debug)]
pub enum SeriesScanError {
    Io(std::io::Error),
    InvalidStructure(String),
    ParseError(String),
}

impl SeriesScanError {
    /// The message the error displays.
    pub fn message(&self) -> (r: String)
        ensures
            self is Io ==> starts_with_seq(r@, "IO error: "@),
            self matches SeriesScanError::InvalidStructure(s) ==> r@ == "Invalid series folder structure: "@ + s@,
            self matches SeriesScanError::ParseError(s) ==> r@ == "Failed to parse series name: "@ + s@,
    {
        match self {
            SeriesScanError::Io(e) => {
                let t = io_error_text(e);
                prefixed("IO error: ", t.as_str())
            },
            SeriesScanError::InvalidStructure(s) => prefixed("Invalid series folder structure: ", s.as_str()),
            SeriesScanError::ParseError(s) => prefixed("Failed to parse series name: ", s.as_str()),
        }
    }
}

impl From<std::io::Error> for SeriesScanError {
    fn from(e: std::io::Error) -> (r: Self) {
        SeriesScanError::Io(e)
    }
}

impl vstd::std_specs::convert::FromSpecImpl<std::io::Error> for SeriesScanError {
    open spec fn obeys_from_spec() -> bool {
        true
    }

    open spec fn from_spec(e: std::io::Error) -> Self {
        SeriesScanError::Io(e)
    }
}

/// Errors of series discovery.
#[derive(Debug)]
pub enum SeriesDiscoveryError {
    TmdbApi(String),
    YoutubeSearch(String),
    NotFound(String),
    Network(reqwest::Error),
}

impl SeriesDiscoveryError {
    /// The message the error displays.
    pub fn message(&self) -> (r: String)
        ensures
            self matches SeriesDiscoveryError::TmdbApi(s) ==> r@ == "TMDB API error: "@ + s@,
            self matches SeriesDiscoveryError::YoutubeSearch(s) ==> r@ == "YouTube search error: "@ + s@,
            self matches SeriesDiscoveryError::NotFound(s) ==> r@ == "Series not found: "@ + s@,
            self is Network ==> starts_with_seq(r@, "Network error: "@),
    {
        match self {
            SeriesDiscoveryError::TmdbApi(s) => prefixed("TMDB API error: ", s.as_str()),
            SeriesDiscoveryError::YoutubeSearch(s) => prefixed("YouTube search error: ", s.as_str()),
            SeriesDiscoveryError::NotFound(s) => prefixed("Series not found: ", s.as_str()),
            SeriesDiscoveryError::Network(e) => {
                let t = reqwest_error_text(e);
                prefixed("Network error: ", t.as_str())
            },
        }
    }
}

impl From<reqwest::Error> for SeriesDiscoveryError {
    fn from(e: reqwest::Error) -> (r: Self) {
        SeriesDiscoveryError::Network(e)
    }
}

impl vstd::std_specs::convert::FromSpecImpl<reqwest::Error> for SeriesDiscoveryError {
    open spec fn obeys_from_spec() -> bool {
        true
    }

    open spec fn from_spec(e: reqwest::Error) -> Self {
        SeriesDiscoveryError::Network(e)
    }
}

/// Errors of organizing series files.
#[derive(Debug)]
pub enum SeriesOrganizerError {
    Io(std::io::Error),
    InvalidSeason(u8),
    FileNotFound(PathBuf),
}

impl SeriesOrganizerError {
    /// The message the error displays.
    pub fn message(&self) -> (r: String)
        ensures
            self is Io ==> starts_with_seq(r@, "IO error: "@),
            self matches SeriesOrganizerError::InvalidSeason(n) ==> r@ == "Invalid season number: "@ + decimal(n as nat),
            self is FileNotFound ==> starts_with_seq(r@, "File not found: "@),
    {
        match self {
            SeriesOrganizerError::Io(e) => {
                let t = io_error_text(e);
                prefixed("IO error: ", t.as_str())
            },
            SeriesOrganizerError::InvalidSeason(n) => {
                let mut v: Vec<char> = Vec::new();
                push_str(&mut v, "Invalid season number: ");
                push_decimal(&mut v, *n as u64);
                string_of(&v)
            },
            SeriesOrganizerError::FileNotFound(e) => {
                let t = path_text(e);
                prefixed("File not found: ", t.as_str())
            },
        }
    }
}

impl From<std::io::Error> for SeriesOrganizerError {
    fn from(e: std::io::Error) -> (r: Self) {
        SeriesOrganizerError::Io(e)
    }
}

impl vstd::std_specs::convert::FromSpecImpl<std::io::Error> for SeriesOrganizerError {
    open spec fn obeys_from_spec() -> bool {
        true
    }

    open spec fn from_spec(e: std::io::Error) -> Self {
        SeriesOrganizerError::Io(e)
    }
}

} // verus!
