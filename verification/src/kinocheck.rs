//! KinoCheck, the fallback for movies without TMDB videos: the request
//! budget, the category of a trailer, the YouTube source built from it,
//! and what each HTTP answer leads to.
use vstd::prelude::*;
use vstd::string::StringExecFns;
use crate::api_step::{ApiStep, api_step, step_for};
use crate::models::{ContentCategory, SourceType, VideoSource, VideoSourceView};
use crate::text::{
    chars_of, decimal, equals_str, push_chars, push_decimal, push_str, string_of, trim_whitespace,
    trim_ws, utf8_len, utf8_longer_than,
};

verus! {

/// Free-tier daily request limit of the KinoCheck API.
pub const KINOCHECK_DAILY_LIMIT: u32 = 1000;

/// Request count (80% of the daily limit) at which a warning is logged.
pub const KINOCHECK_WARN_THRESHOLD: u32 = 800;

/// The category named first: Trailer, Featurette or Behind the Scenes;
/// anything else (or nothing) is filed as extras.
pub open spec fn kinocheck_category(categories: Seq<Seq<char>>) -> ContentCategory {
    if categories.len() == 0 {
        ContentCategory::Extras
    } else if categories[0] == "Trailer"@ {
        ContentCategory::Trailer
    } else if categories[0] == "Featurette"@ {
        ContentCategory::Featurette
    } else if categories[0] == "Behind the Scenes"@ {
        ContentCategory::BehindTheScenes
    } else {
        ContentCategory::Extras
    }
}

/// The source for a trailer: its YouTube id, trimmed, must be 11 bytes long.
pub open spec fn trailer_source_of(
    youtube_video_id: Seq<char>,
    title: Seq<char>,
    categories: Seq<Seq<char>>,
) -> Option<VideoSourceView> {
    let id = trim_ws(youtube_video_id);
    if id.len() == 0 || utf8_len(id) != 11 {
        None
    } else {
        Some(
            VideoSourceView {
                url: "https://www.youtube.com/watch?v="@ + id,
                source_type: SourceType::KinoCheck,
                category: kinocheck_category(categories),
                title,
                season_number: None,
                duration_secs: None,
            },
        )
    }
}

/// Discovers trailers through the KinoCheck API.
pub struct KinoCheckDiscoverer;

impl KinoCheckDiscoverer {
    /// The request for a movie's trailer by its TMDB id.
    pub fn movie_url(tmdb_id: u64) -> (r: String)
        ensures
            r@ == "https://api.kinocheck.de/movies?tmdb_id="@ + decimal(tmdb_id as nat),
    {
        let mut v: Vec<char> = Vec::new();
        push_str(&mut v, "https://api.kinocheck.de/movies?tmdb_id=");
        push_decimal(&mut v, tmdb_id);
        string_of(&v)
    }

    /// The category of a trailer by the first of its categories.
    pub fn map_category(categories: &[String]) -> (r: ContentCategory)
        ensures
            r == kinocheck_category(categories@.map_values(|s: String| s@)),
    {
        let ghost cv = categories@.map_values(|s: String| s@);
        if categories.len() == 0 {
            return ContentCategory::Extras;
        }
        let first = chars_of(categories[0].as_str());
        assert(cv[0] == categories@[0]@);
        if equals_str(&first, "Trailer") {
            ContentCategory::Trailer
        } else if equals_str(&first, "Featurette") {
            ContentCategory::Featurette
        } else if equals_str(&first, "Behind the Scenes") {
            ContentCategory::BehindTheScenes
        } else {
            ContentCategory::Extras
        }
    }

    /// Whether the request count just reached the warning threshold.
    pub fn should_warn(count: u32) -> (r: bool)
        ensures
            r == (count == KINOCHECK_WARN_THRESHOLD),
    {
        count == KINOCHECK_WARN_THRESHOLD
    }

    /// The share of the daily limit that a request count uses, in percent
    /// (rounded down).
    pub fn usage_percent(count: u32) -> (r: u64)
        ensures
            r == count as nat * 100 / KINOCHECK_DAILY_LIMIT as nat,
    {
        (count as u64) * 100 / (KINOCHECK_DAILY_LIMIT as u64)
    }

    /// What to do with an HTTP answer of the KinoCheck API, for which 404
    /// means the movie is unknown: no videos.
    pub fn step_for_status(status: u16, is_retry: bool) -> (r: ApiStep)
        ensures
            r == api_step(status, is_retry, true),
    {
        step_for(status, is_retry, true)
    }

    /// The YouTube source for a KinoCheck trailer; none when its video id,
    /// trimmed, is not 11 bytes long.
    pub fn trailer_source(youtube_video_id: &str, title: String, categories: &[String]) -> (r:
        Option<VideoSource>)
        ensures
            match r {
                Some(s) => trailer_source_of(
                    youtube_video_id@,
                    title@,
                    categories@.map_values(|c: String| c@),
                ) == Some(s@),
                None => trailer_source_of(
                    youtube_video_id@,
                    title@,
                    categories@.map_values(|c: String| c@),
                ) is None,
            },
    {
        let raw = chars_of(youtube_video_id);
        let id = trim_whitespace(&raw);
        if id.len() == 0 || utf8_longer_than(&id, 11) || !utf8_longer_than(&id, 10) {
            return None;
        }
        let category = Self::map_category(categories);
        let mut url: Vec<char> = Vec::new();
        push_str(&mut url, "https://www.youtube.com/watch?v=");
        push_chars(&mut url, &id);
        Some(
            VideoSource {
                url: string_of(&url),
                source_type: SourceType::KinoCheck,
                category,
                title,
                season_number: None,
                duration_secs: None,
            },
        )
    }
}


/// A KinoCheck video is filed by its first category: Trailer, Featurette or
/// Behind the Scenes as such, anything else (or no category) as extras.
pub proof fn law_kinocheck_first_category(categories: Seq<Seq<char>>)
    ensures
        categories.len() > 0 && categories[0] == "Trailer"@ ==> kinocheck_category(categories)
            == ContentCategory::Trailer,
        categories.len() > 0 && categories[0] == "Featurette"@ ==> kinocheck_category(categories)
            == ContentCategory::Featurette,
        categories.len() > 0 && categories[0] == "Behind the Scenes"@ ==> kinocheck_category(
            categories,
        ) == ContentCategory::BehindTheScenes,
        (categories.len() == 0 || (categories[0] != "Trailer"@ && categories[0] != "Featurette"@
            && categories[0] != "Behind the Scenes"@)) ==> kinocheck_category(categories)
            == ContentCategory::Extras,
{
    reveal_strlit("Trailer");
    assert("Trailer"@.len() == 7);
    reveal_strlit("Featurette");
    assert("Featurette"@.len() == 10);
    reveal_strlit("Behind the Scenes");
    assert("Behind the Scenes"@.len() == 17);
}

} // verus!
