//! The series metadata cache: its records, where the files go, and when a
//! cached record is still fresh.
use vstd::prelude::*;
use std::path::{Path, PathBuf};
use crate::season_zero_import::{Season0Importer, sanitized};
use crate::text::{chars_of, decimal, push_chars, push_decimal, push_str, string_of};
use crate::tvdb::TvdbEpisodeExtended;

verus! {

/// Cached series metadata with its time stamp.
#[derive(Debug, Clone)]
pub struct CachedSeriesMetadata {
    /// Series ID from TMDB
    pub series_id: u64,
    /// Series name
    pub name: String,
    /// When it was cached (RFC 3339)
    pub cached_at: String,
}

/// Cached TheTVDB Season 0 episodes with their time stamp.
#[derive(Debug, Clone)]
pub struct CachedTvdbSeasonZero {
    /// TheTVDB series ID
    pub tvdb_id: u64,
    /// Season 0 episodes
    pub episodes: Vec<TvdbEpisodeExtended>,
    /// When it was cached (RFC 3339)
    pub cached_at: String,
}

/// Series metadata cache in the `.cache` folder of a series.
pub struct SeriesMetadataCache {
    /// The cache folder
    pub cache_dir: PathBuf,
    /// Time to live in days
    pub ttl_days: i64,
}

/// Whether `chrono` reads the text as an RFC 3339 time stamp
/// (`DateTime::parse_from_rfc3339` succeeds).
pub uninterp spec fn rfc3339_valid(text: Seq<char>) -> bool;

/// Parses the time stamp with `chrono::DateTime::parse_from_rfc3339` and
/// measures its age against `Utc::now()` (`signed_duration_since`) in whole
/// milliseconds (`TimeDelta::num_milliseconds`). `None` exactly when the
/// text does not parse; the age itself depends on the clock, so nothing more
/// is stated of it.
#[verifier::external_body]
fn cache_age_millis(cached_at: &str) -> (r: Option<i64>)
    ensures
        r is None <==> !rfc3339_valid(cached_at@),
{
    let t = chrono::DateTime::parse_from_rfc3339(cached_at).ok()?;
    Some(chrono::Utc::now().signed_duration_since(t.with_timezone(&chrono::Utc)).num_milliseconds())
}

/// The path `Path::join` makes of a base path and a name.
pub uninterp spec fn path_joined(base: &Path, name: Seq<char>) -> PathBuf;

/// Joins a path and a name (`Path::join`); paths are opaque here, and the
/// result is named `path_joined` of the base and the name.
#[verifier::external_body]
fn join_path(base: &Path, name: &str) -> (r: PathBuf)
    ensures
        r == path_joined(base, name@),
{
    base.join(name)
}

/// Milliseconds in seven days.
pub open spec fn week_millis() -> int {
    604_800_000int
}

impl SeriesMetadataCache {
    /// A cache in the series folder's `.cache` folder, entries living 7 days.
    pub fn new(series_path: &Path) -> (r: Self)
        ensures
            r.cache_dir == path_joined(series_path, ".cache"@),
            r.ttl_days == 7,
    {
        SeriesMetadataCache { cache_dir: join_path(series_path, ".cache"), ttl_days: 7 }
    }

    /// A cache in the series folder's `.cache` folder with the given time to
    /// live.
    pub fn with_ttl(series_path: &Path, ttl_days: i64) -> (r: Self)
        ensures
            r.cache_dir == path_joined(series_path, ".cache"@),
            r.ttl_days == ttl_days,
    {
        SeriesMetadataCache { cache_dir: join_path(series_path, ".cache"), ttl_days }
    }

    /// The cache file name of a series: its sanitized name and `.json`.
    pub fn cache_file_name(series_name: &str) -> (r: String)
        ensures
            r@ == sanitized(series_name@) + ".json"@,
    {
        let s = Season0Importer::sanitize_filename(series_name);
        let mut v = chars_of(s.as_str());
        push_str(&mut v, ".json");
        string_of(&v)
    }

    /// The cache file name of a series' TheTVDB Season 0 episodes:
    /// `tvdb_season0_{id}.json` (in the `tvdb_ids` folder).
    pub fn tvdb_cache_file_name(tvdb_id: u64) -> (r: String)
        ensures
            r@ == "tvdb_season0_"@ + decimal(tvdb_id as nat) + ".json"@,
    {
        let mut v: Vec<char> = Vec::new();
        push_str(&mut v, "tvdb_season0_");
        push_decimal(&mut v, tvdb_id);
        push_str(&mut v, ".json");
        string_of(&v)
    }

    /// Whether an entry of the given age (in milliseconds, `None` when its
    /// time stamp could not be read) is fresh: younger than seven days.
    pub fn is_fresh_age(age_millis: Option<i64>) -> (r: bool)
        ensures
            r == match age_millis {
                Some(a) => a < week_millis(),
                None => false,
            },
    {
        match age_millis {
            Some(a) => a < 604_800_000i64,
            None => false,
        }
    }

    /// Whether a cached time stamp is younger than seven days; never for a
    /// text that is not an RFC 3339 time stamp.
    pub fn is_cache_fresh(cached_at: &str) -> (r: bool)
        ensures
            !rfc3339_valid(cached_at@) ==> !r,
    {
        Self::is_fresh_age(cache_age_millis(cached_at))
    }

    /// Whether an entry of the given age (in milliseconds, `None` when its
    /// time stamp could not be read) is fresh under this cache's time to
    /// live: younger than `ttl_days` days.
    pub fn is_within_ttl(&self, age_millis: Option<i64>) -> (r: bool)
        ensures
            r == match age_millis {
                Some(a) => a < days_millis(self.ttl_days as int),
                None => false,
            },
    {
        match age_millis {
            Some(a) => (a as i128) < (self.ttl_days as i128) * 86_400_000i128,
            None => false,
        }
    }

    /// Whether a cached time stamp is younger than this cache's time to
    /// live; never for a text that is not an RFC 3339 time stamp.
    pub fn is_fresh_under_ttl(&self, cached_at: &str) -> (r: bool)
        ensures
            !rfc3339_valid(cached_at@) ==> !r,
    {
        self.is_within_ttl(cache_age_millis(cached_at))
    }
}

/// Milliseconds in the given number of days.
pub open spec fn days_millis(days: int) -> int {
    days * 86_400_000
}

/// A cache made with `new` keeps entries for seven days, the same span
/// that `is_fresh_age` uses.
pub proof fn law_default_ttl_is_a_week(c: SeriesMetadataCache, age_millis: i64)
    requires
        c.ttl_days == 7,
    ensures
        (age_millis < days_millis(c.ttl_days as int)) == (age_millis < week_millis()),
{
}

} // verus!
