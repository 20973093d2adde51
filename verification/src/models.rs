//! Shared records and enumerations: library entries, discovered video
//! sources, content categories and the sources they come from.
use vstd::prelude::*;
use vstd::string::StringExecFns;
use std::path::PathBuf;
use crate::text::{chars_of, decimal, decimal_padded, push_chars, push_decimal, push_decimal_padded, push_str, string_of};

verus! {

/// A movie found while scanning the library.
#[derive(Debug, Clone)]
pub struct MovieEntry {
    /// Path to the movie folder
    pub path: PathBuf,
    /// Movie title taken from the folder name
    pub title: String,
    /// Release year taken from the folder name
    pub year: u16,
    /// Whether the folder holds a done marker
    pub has_done_marker: bool,
}

impl MovieEntry {
    /// `"{title} ({year})"`.
    pub fn display_string(&self) -> (r: String)
        ensures
            r@ == self.title@ + " ("@ + decimal(self.year as nat) + ")"@,
    {
        let mut v = chars_of(self.title.as_str());
        push_str(&mut v, " (");
        push_decimal(&mut v, self.year as u64);
        push_str(&mut v, ")");
        string_of(&v)
    }
}

/// A video discovered at a content provider.
#[derive(Debug, Clone)]
pub struct VideoSource {
    /// URL of the video
    pub url: String,
    /// Provider the video was found at
    pub source_type: SourceType,
    /// Content category used to file the video
    pub category: ContentCategory,
    /// Title or description of the video
    pub title: String,
    /// Season the video belongs to (None: series-level or a movie)
    pub season_number: Option<u8>,
    /// Duration in seconds when the provider reports it
    pub duration_secs: Option<u32>,
}

/// Spec-level view of a video source: its texts as character sequences.
pub struct VideoSourceView {
    pub url: Seq<char>,
    pub source_type: SourceType,
    pub category: ContentCategory,
    pub title: Seq<char>,
    pub season_number: Option<u8>,
    pub duration_secs: Option<u32>,
}

impl View for VideoSource {
    type V = VideoSourceView;

    open spec fn view(&self) -> VideoSourceView {
        VideoSourceView {
            url: self.url@,
            source_type: self.source_type,
            category: self.category,
            title: self.title@,
            season_number: self.season_number,
            duration_secs: self.duration_secs,
        }
    }
}

/// A copy of a video source with the same fields.
pub fn copy_source(v: &VideoSource) -> (r: VideoSource)
    ensures
        r@ == v@,
{
    VideoSource {
        url: v.url.clone(),
        source_type: v.source_type,
        category: v.category,
        title: v.title.clone(),
        season_number: v.season_number,
        duration_secs: v.duration_secs,
    }
}

/// Views of a sequence of video sources.
pub open spec fn video_views(s: Seq<VideoSource>) -> Seq<VideoSourceView> {
    Seq::new(s.len(), |i: int| s[i]@)
}

impl VideoSource {
    /// `"{title} - {category} ({source type})"`.
    pub fn display_string(&self) -> (r: String)
        ensures
            r@ == self.title@ + " - "@ + category_display(self.category) + " ("@
                + source_type_display(self.source_type) + ")"@,
    {
        let mut v = chars_of(self.title.as_str());
        push_str(&mut v, " - ");
        let c = self.category.display_string();
        push_str(&mut v, c.as_str());
        push_str(&mut v, " (");
        let s = self.source_type.display_string();
        push_str(&mut v, s.as_str());
        push_str(&mut v, ")");
        string_of(&v)
    }
}

/// Outcome of downloading one video.
#[derive(Debug, Clone)]
pub struct DownloadResult {
    /// The video that was downloaded
    pub source: VideoSource,
    /// Where the file was stored
    pub local_path: PathBuf,
    /// Whether the download succeeded
    pub success: bool,
    /// Error message when it failed
    pub error: Option<String>,
}

/// Outcome of converting one video.
#[derive(Debug, Clone)]
pub struct ConversionResult {
    /// Input file
    pub input_path: PathBuf,
    /// Output file
    pub output_path: PathBuf,
    /// Content category used to file the video
    pub category: ContentCategory,
    /// Season the video belongs to
    pub season_number: Option<u8>,
    /// Whether the conversion succeeded
    pub success: bool,
    /// Error message when it failed
    pub error: Option<String>,
}

/// Content of the marker file that records a finished folder.
#[derive(Debug, Clone)]
pub struct DoneMarker {
    /// ISO 8601 time at which processing finished
    pub finished_at: String,
    /// Version of the tool that wrote the marker
    pub version: String,
}

impl DoneMarker {
    /// `"Completed at {finished_at} (v{version})"`.
    pub fn display_string(&self) -> (r: String)
        ensures
            r@ == "Completed at "@ + self.finished_at@ + " (v"@ + self.version@ + ")"@,
    {
        let mut v = chars_of("Completed at ");
        push_str(&mut v, self.finished_at.as_str());
        push_str(&mut v, " (v");
        push_str(&mut v, self.version.as_str());
        push_str(&mut v, ")");
        string_of(&v)
    }
}

/// A discovery source that the user can select.
#[derive(Debug, Clone, Copy, PartialEq, Eq, Structural, Hash)]
pub enum Source {
    /// TheMovieDB API
    Tmdb,
    /// Internet Archive
    Archive,
    /// Dailymotion
    Dailymotion,
    /// YouTube
    Youtube,
    /// Vimeo (opt-in)
    Vimeo,
    /// Bilibili (opt-in)
    Bilibili,
}

/// Deduplication tier of a selectable source (1 is the highest priority).
pub open spec fn source_tier(s: Source) -> u8 {
    match s {
        Source::Tmdb => 1,
        Source::Archive => 2,
        Source::Dailymotion => 2,
        Source::Youtube => 3,
        Source::Vimeo => 2,
        Source::Bilibili => 3,
    }
}

/// The name a source is written with on the command line.
pub open spec fn source_display(s: Source) -> Seq<char> {
    match s {
        Source::Tmdb => "tmdb"@,
        Source::Archive => "archive"@,
        Source::Dailymotion => "dailymotion"@,
        Source::Youtube => "youtube"@,
        Source::Vimeo => "vimeo"@,
        Source::Bilibili => "bilibili"@,
    }
}

impl Source {
    /// Deduplication priority tier (1 = highest).
    pub fn tier(&self) -> (r: u8)
        ensures
            r == source_tier(*self),
    {
        match self {
            Source::Tmdb => 1,
            Source::Archive => 2,
            Source::Dailymotion => 2,
            Source::Youtube => 3,
            Source::Vimeo => 2,
            Source::Bilibili => 3,
        }
    }

    /// The command-line name of the source.
    pub fn display_string(&self) -> (r: String)
        ensures
            r@ == source_display(*self),
    {
        match self {
            Source::Tmdb => String::from_str("tmdb"),
            Source::Archive => String::from_str("archive"),
            Source::Dailymotion => String::from_str("dailymotion"),
            Source::Youtube => String::from_str("youtube"),
            Source::Vimeo => String::from_str("vimeo"),
            Source::Bilibili => String::from_str("bilibili"),
        }
    }
}

/// The sources queried when none are chosen.
pub fn default_sources() -> (r: Vec<Source>)
    ensures
        r@ == seq![Source::Tmdb, Source::Archive, Source::Dailymotion, Source::Youtube],
{
    let mut v = Vec::new();
    v.push(Source::Tmdb);
    v.push(Source::Archive);
    v.push(Source::Dailymotion);
    v.push(Source::Youtube);
    v
}

/// The sources queried with `--all`: tmdb, archive, dailymotion, youtube and
/// vimeo.
pub fn all_sources() -> (r: Vec<Source>)
    ensures
        r@ == seq![Source::Tmdb, Source::Archive, Source::Dailymotion, Source::Youtube, Source::Vimeo],
{
    let mut v = Vec::new();
    v.push(Source::Tmdb);
    v.push(Source::Archive);
    v.push(Source::Dailymotion);
    v.push(Source::Youtube);
    v.push(Source::Vimeo);
    v
}

/// Provider a video was found at.
#[derive(Debug, Clone, Copy, PartialEq, Eq, Structural, Hash)]
pub enum SourceType {
    /// TheMovieDB API
    TMDB,
    /// Internet Archive
    ArchiveOrg,
    /// YouTube
    YouTube,
    /// TheTVDB API
    TheTVDB,
    /// Dailymotion
    Dailymotion,
    /// KinoCheck (fallback when TMDB has no videos)
    KinoCheck,
    /// Vimeo
    Vimeo,
    /// Bilibili
    Bilibili,
}

/// Deduplication tier of a provider: TMDB, KinoCheck and TheTVDB are tier 1;
/// Dailymotion, Vimeo and Archive.org tier 2; YouTube and Bilibili tier 3.
pub open spec fn source_type_tier(s: SourceType) -> u8 {
    match s {
        SourceType::TMDB => 1,
        SourceType::KinoCheck => 1,
        SourceType::TheTVDB => 1,
        SourceType::Dailymotion => 2,
        SourceType::Vimeo => 2,
        SourceType::ArchiveOrg => 2,
        SourceType::YouTube => 3,
        SourceType::Bilibili => 3,
    }
}

/// Display name of a provider.
pub open spec fn source_type_display(s: SourceType) -> Seq<char> {
    match s {
        SourceType::TMDB => "TMDB"@,
        SourceType::ArchiveOrg => "Archive.org"@,
        SourceType::YouTube => "YouTube"@,
        SourceType::TheTVDB => "TheTVDB"@,
        SourceType::Dailymotion => "Dailymotion"@,
        SourceType::KinoCheck => "KinoCheck"@,
        SourceType::Vimeo => "Vimeo"@,
        SourceType::Bilibili => "Bilibili"@,
    }
}

impl SourceType {
    /// Deduplication tier of the provider (1 = highest).
    pub fn tier(&self) -> (r: u8)
        ensures
            r == source_type_tier(*self),
    {
        match self {
            SourceType::TMDB => 1,
            SourceType::KinoCheck => 1,
            SourceType::TheTVDB => 1,
            SourceType::Dailymotion => 2,
            SourceType::Vimeo => 2,
            SourceType::ArchiveOrg => 2,
            SourceType::YouTube => 3,
            SourceType::Bilibili => 3,
        }
    }

    /// Display name of the provider.
    pub fn display_string(&self) -> (r: String)
        ensures
            r@ == source_type_display(*self),
    {
        match self {
            SourceType::TMDB => String::from_str("TMDB"),
            SourceType::ArchiveOrg => String::from_str("Archive.org"),
            SourceType::YouTube => String::from_str("YouTube"),
            SourceType::TheTVDB => String::from_str("TheTVDB"),
            SourceType::Dailymotion => String::from_str("Dailymotion"),
            SourceType::KinoCheck => String::from_str("KinoCheck"),
            SourceType::Vimeo => String::from_str("Vimeo"),
            SourceType::Bilibili => String::from_str("Bilibili"),
        }
    }
}

/// Category an extra is filed under.
#[derive(Debug, Clone, Copy, PartialEq, Eq, Structural, Hash)]
pub enum ContentCategory {
    /// Trailers
    Trailer,
    /// Featurettes and EPK content
    Featurette,
    /// Behind-the-scenes footage
    BehindTheScenes,
    /// Deleted scenes
    DeletedScene,
    /// Cast and crew interviews
    Interview,
    /// Short films
    Short,
    /// Scene clips
    Clip,
    /// Full scenes
    Scene,
    /// Anything that fits no other category
    Extras,
}

/// Display name of a category.
pub open spec fn category_display(c: ContentCategory) -> Seq<char> {
    match c {
        ContentCategory::Trailer => "Trailer"@,
        ContentCategory::Featurette => "Featurette"@,
        ContentCategory::BehindTheScenes => "Behind the Scenes"@,
        ContentCategory::DeletedScene => "Deleted Scene"@,
        ContentCategory::Interview => "Interview"@,
        ContentCategory::Short => "Short"@,
        ContentCategory::Clip => "Clip"@,
        ContentCategory::Scene => "Scene"@,
        ContentCategory::Extras => "Extras"@,
    }
}

/// Name of the folder a category is filed in.
pub open spec fn category_subdirectory(c: ContentCategory) -> Seq<char> {
    match c {
        ContentCategory::Trailer => "trailers"@,
        ContentCategory::Featurette => "featurettes"@,
        ContentCategory::BehindTheScenes => "behind the scenes"@,
        ContentCategory::DeletedScene => "deleted scenes"@,
        ContentCategory::Interview => "interviews"@,
        ContentCategory::Short => "shorts"@,
        ContentCategory::Clip => "clips"@,
        ContentCategory::Scene => "scenes"@,
        ContentCategory::Extras => "extras"@,
    }
}

impl ContentCategory {
    /// Name of the subdirectory this category is filed in.
    pub fn subdirectory(&self) -> (r: &'static str)
        ensures
            r@ == category_subdirectory(*self),
    {
        match self {
            ContentCategory::Trailer => "trailers",
            ContentCategory::Featurette => "featurettes",
            ContentCategory::BehindTheScenes => "behind the scenes",
            ContentCategory::DeletedScene => "deleted scenes",
            ContentCategory::Interview => "interviews",
            ContentCategory::Short => "shorts",
            ContentCategory::Clip => "clips",
            ContentCategory::Scene => "scenes",
            ContentCategory::Extras => "extras",
        }
    }

    /// Display name of the category.
    pub fn display_string(&self) -> (r: String)
        ensures
            r@ == category_display(*self),
    {
        match self {
            ContentCategory::Trailer => String::from_str("Trailer"),
            ContentCategory::Featurette => String::from_str("Featurette"),
            ContentCategory::BehindTheScenes => String::from_str("Behind the Scenes"),
            ContentCategory::DeletedScene => String::from_str("Deleted Scene"),
            ContentCategory::Interview => String::from_str("Interview"),
            ContentCategory::Short => String::from_str("Short"),
            ContentCategory::Clip => String::from_str("Clip"),
            ContentCategory::Scene => String::from_str("Scene"),
            ContentCategory::Extras => String::from_str("Extras"),
        }
    }
}

/// Classification of a library item.
#[derive(Debug, Clone, Copy, PartialEq, Eq, Structural)]
pub enum MediaType {
    /// A movie
    Movie,
    /// A TV series with seasons
    Series,
    /// Not classified
    Unknown,
}

impl MediaType {
    /// Display name of the media type.
    pub fn display_string(&self) -> (r: String)
        ensures
            r@ == (match *self {
                MediaType::Movie => "Movie"@,
                MediaType::Series => "Series"@,
                MediaType::Unknown => "Unknown"@,
            }),
    {
        match self {
            MediaType::Movie => String::from_str("Movie"),
            MediaType::Series => String::from_str("Series"),
            MediaType::Unknown => String::from_str("Unknown"),
        }
    }
}

/// Which kinds of library items are processed.
#[derive(Debug, Clone, Copy, PartialEq, Eq, Structural)]
pub enum ProcessingMode {
    /// Movies and series
    Both,
    /// Movies only
    MoviesOnly,
    /// Series only
    SeriesOnly,
}

impl ProcessingMode {
    /// Display name of the processing mode.
    pub fn display_string(&self) -> (r: String)
        ensures
            r@ == (match *self {
                ProcessingMode::Both => "Both"@,
                ProcessingMode::MoviesOnly => "Movies Only"@,
                ProcessingMode::SeriesOnly => "Series Only"@,
            }),
    {
        match self {
            ProcessingMode::Both => String::from_str("Both"),
            ProcessingMode::MoviesOnly => String::from_str("Movies Only"),
            ProcessingMode::SeriesOnly => String::from_str("Series Only"),
        }
    }
}

/// A TV series found while scanning the library.
#[derive(Debug, Clone)]
pub struct SeriesEntry {
    /// Path to the series folder
    pub path: PathBuf,
    /// Series title taken from the folder name
    pub title: String,
    /// Release year taken from the folder name, when present
    pub year: Option<u16>,
    /// Whether the folder holds a done marker
    pub has_done_marker: bool,
    /// Season numbers found in the folder
    pub seasons: Vec<u8>,
}

impl SeriesEntry {
    /// `"{title} ({year})"`, or the bare title without a year.
    pub fn display_string(&self) -> (r: String)
        ensures
            r@ == (match self.year {
                Some(y) => self.title@ + " ("@ + decimal(y as nat) + ")"@,
                None => self.title@,
            }),
    {
        let mut v = chars_of(self.title.as_str());
        match self.year {
            Some(y) => {
                push_str(&mut v, " (");
                push_decimal(&mut v, y as u64);
                push_str(&mut v, ")");
            },
            None => {},
        }
        string_of(&v)
    }
}

/// An extra video of a TV series.
#[derive(Debug, Clone)]
pub struct SeriesExtra {
    /// Series identifier
    pub series_id: String,
    /// Season of the extra (None: series-level)
    pub season_number: Option<u8>,
    /// Content category
    pub category: ContentCategory,
    /// Title or description
    pub title: String,
    /// Video URL
    pub url: String,
    /// Provider the video was found at
    pub source_type: SourceType,
    /// Where the file was stored after download
    pub local_path: Option<PathBuf>,
    /// Duration in seconds when the provider reports it
    pub duration_secs: Option<u32>,
}

/// Spec-level view of a series extra: its texts as character sequences.
pub struct SeriesExtraView {
    pub series_id: Seq<char>,
    pub season_number: Option<u8>,
    pub category: ContentCategory,
    pub title: Seq<char>,
    pub url: Seq<char>,
    pub source_type: SourceType,
    pub local_path: Option<PathBuf>,
    pub duration_secs: Option<u32>,
}

impl View for SeriesExtra {
    type V = SeriesExtraView;

    open spec fn view(&self) -> SeriesExtraView {
        SeriesExtraView {
            series_id: self.series_id@,
            season_number: self.season_number,
            category: self.category,
            title: self.title@,
            url: self.url@,
            source_type: self.source_type,
            local_path: self.local_path,
            duration_secs: self.duration_secs,
        }
    }
}

/// Views of a sequence of series extras.
pub open spec fn extra_views(s: Seq<SeriesExtra>) -> Seq<SeriesExtraView> {
    Seq::new(s.len(), |i: int| s[i]@)
}

impl SeriesExtra {
    /// `"S{season:02} - {title} - {category} ({source type})"`, with `Series`
    /// in place of the season for a series-level extra.
    pub fn display_string(&self) -> (r: String)
        ensures
            r@ == (match self.season_number {
                Some(s) => "S"@ + decimal_padded(s as nat, 2),
                None => "Series"@,
            }) + " - "@ + self.title@ + " - "@ + category_display(self.category) + " ("@
                + source_type_display(self.source_type) + ")"@,
    {
        let mut v: Vec<char> = Vec::new();
        match self.season_number {
            Some(s) => {
                push_str(&mut v, "S");
                push_decimal_padded(&mut v, s as u64, 2);
            },
            None => {
                push_str(&mut v, "Series");
            },
        }
        push_str(&mut v, " - ");
        push_str(&mut v, self.title.as_str());
        push_str(&mut v, " - ");
        let c = self.category.display_string();
        push_str(&mut v, c.as_str());
        push_str(&mut v, " (");
        let s = self.source_type.display_string();
        push_str(&mut v, s.as_str());
        push_str(&mut v, ")");
        string_of(&v)
    }

    /// The same extra as a plain video source.
    pub fn into_video_source(self) -> (r: VideoSource)
        ensures
            r.url == self.url,
            r.source_type == self.source_type,
            r.category == self.category,
            r.title == self.title,
            r.season_number == self.season_number,
            r.duration_secs == self.duration_secs,
    {
        VideoSource {
            url: self.url,
            source_type: self.source_type,
            category: self.category,
            title: self.title,
            season_number: self.season_number,
            duration_secs: self.duration_secs,
        }
    }
}

/// A Season 0 special episode.
#[derive(Debug, Clone)]
pub struct SpecialEpisode {
    /// Episode number within Season 0
    pub episode_number: u8,
    /// Episode title
    pub title: String,
    /// Air date, when known
    pub air_date: Option<String>,
    /// Video URL, when known
    pub url: Option<String>,
    /// Where the file was stored after download
    pub local_path: Option<PathBuf>,
    /// TheTVDB episode ID, when known
    pub tvdb_id: Option<u64>,
}

impl SpecialEpisode {
    /// `"S00E{number:02} - {title}"`.
    pub fn display_string(&self) -> (r: String)
        ensures
            r@ == "S00E"@ + decimal_padded(self.episode_number as nat, 2) + " - "@ + self.title@,
    {
        let mut v = chars_of("S00E");
        push_decimal_padded(&mut v, self.episode_number as u64, 2);
        push_str(&mut v, " - ");
        push_str(&mut v, self.title.as_str());
        string_of(&v)
    }
}

/// Hardware acceleration used for video conversion.
#[derive(Debug, Clone, Copy, PartialEq, Eq, Structural)]
pub enum HardwareAccel {
    /// NVIDIA NVENC
    Nvenc,
    /// Intel Quick Sync Video
    Qsv,
    /// Apple VideoToolbox
    VideoToolbox,
    /// Software encoding
    Software,
}

impl HardwareAccel {
    /// Display name of the acceleration type.
    pub fn display_string(&self) -> (r: String)
        ensures
            r@ == (match *self {
                HardwareAccel::Nvenc => "NVIDIA NVENC"@,
                HardwareAccel::Qsv => "Intel Quick Sync"@,
                HardwareAccel::VideoToolbox => "Apple VideoToolbox"@,
                HardwareAccel::Software => "Software"@,
            }),
    {
        match self {
            HardwareAccel::Nvenc => String::from_str("NVIDIA NVENC"),
            HardwareAccel::Qsv => String::from_str("Intel Quick Sync"),
            HardwareAccel::VideoToolbox => String::from_str("Apple VideoToolbox"),
            HardwareAccel::Software => String::from_str("Software"),
        }
    }
}

} // verus!
