//! YouTube discovery for movies: the searches to run through `yt-dlp`, the
//! filters a result must pass, and the video sources kept from the output.
use vstd::prelude::*;
use vstd::string::StringExecFns;
use crate::models::{ContentCategory, SourceType, VideoSource, VideoSourceView, video_views};
use crate::patterns::group1_captures;
use crate::text::{contains_seq, decimal, push_decimal, push_str, split_lines, string_of, text_lines};
use crate::title_matching::{
    contains_excluded_keywords, contains_movie_title, has_excluded_keyword, has_other_year,
    infer_category_from_title, inferred_category, mentions_different_year, mentions_sequel,
    mentions_sequel_number, normalize_title_text, year_pattern,
};
use crate::ytdlp::{YtdlpVideo, YtdlpVideoView, video_from_line, video_of_line};

verus! {

/// `{title} {year} {suffix}`.
pub open spec fn movie_query(title: Seq<char>, year: u16, suffix: Seq<char>) -> Seq<char> {
    title + " "@ + decimal(year as nat) + " "@ + suffix
}

/// The searches for a movie, each with the category its results are filed
/// under by default: deleted scenes, behind the scenes, cast interviews.
pub open spec fn movie_search_queries(title: Seq<char>, year: u16) -> Seq<
    (Seq<char>, ContentCategory),
> {
    seq![
        (movie_query(title, year, "deleted scenes"@), ContentCategory::DeletedScene),
        (movie_query(title, year, "behind the scenes"@), ContentCategory::BehindTheScenes),
        (movie_query(title, year, "cast interview"@), ContentCategory::Interview),
    ]
}

/// Durations from 30 seconds to 40 minutes are accepted.
pub open spec fn movie_duration_ok(d: u32) -> bool {
    30 <= d <= 2400
}

/// A YouTube Short: under a minute and taller than wide.
pub open spec fn is_short(d: u32, width: u32, height: u32) -> bool {
    d < 60 && height > width
}

/// A search result is kept when its title contains the movie's title
/// (normalized), mentions no sequel number and no other year, carries no
/// excluded keyword, its duration is accepted, and it is not a Short.
pub open spec fn movie_video_passes(
    video_title: Seq<char>,
    movie_title: Seq<char>,
    d: u32,
    width: u32,
    height: u32,
    year: u16,
) -> bool {
    &&& contains_seq(normalize_title_text(video_title), normalize_title_text(movie_title))
    &&& !mentions_sequel(video_title, movie_title)
    &&& movie_duration_ok(d)
    &&& !has_excluded_keyword(video_title)
    &&& !has_other_year(group1_captures(year_pattern(), video_title), year)
    &&& !is_short(d, width, height)
}

/// The source kept for a search result: filed under the category its title
/// names, else the search's category.
pub open spec fn movie_source_of(
    v: YtdlpVideoView,
    movie_title: Seq<char>,
    category: ContentCategory,
    year: u16,
) -> Option<VideoSourceView> {
    if movie_video_passes(v.title, movie_title, v.duration_secs, v.width, v.height, year) {
        Some(
            VideoSourceView {
                url: v.url,
                source_type: SourceType::YouTube,
                category: match inferred_category(v.title) {
                    Some(c) => c,
                    None => category,
                },
                title: v.title,
                season_number: None,
                duration_secs: Some(v.duration_secs),
            },
        )
    } else {
        None
    }
}

/// The sources kept from the output lines of one search, in output order.
pub open spec fn movie_results(
    lines: Seq<Seq<char>>,
    movie_title: Seq<char>,
    category: ContentCategory,
    year: u16,
) -> Seq<VideoSourceView>
    decreases lines.len(),
{
    if lines.len() == 0 {
        seq![]
    } else {
        let prev = movie_results(lines.drop_last(), movie_title, category, year);
        match video_of_line(lines.last()) {
            Some(v) => match movie_source_of(v, movie_title, category, year) {
                Some(s) => prev.push(s),
                None => prev,
            },
            None => prev,
        }
    }
}

/// YouTube content discoverer.
pub struct YoutubeDiscoverer {
    /// Browser to take cookies from against bot detection (e.g. "chrome")
    pub cookies_from_browser: Option<String>,
}

fn query_with(title: &str, year: u16, suffix: &str) -> (r: String)
    ensures
        r@ == movie_query(title@, year, suffix@),
{
    let mut v: Vec<char> = Vec::new();
    push_str(&mut v, title);
    push_str(&mut v, " ");
    push_decimal(&mut v, year as u64);
    push_str(&mut v, " ");
    push_str(&mut v, suffix);
    string_of(&v)
}

impl YoutubeDiscoverer {
    /// A discoverer without cookie authentication.
    pub fn new() -> (r: Self)
        ensures
            r.cookies_from_browser is None,
    {
        YoutubeDiscoverer { cookies_from_browser: None }
    }

    /// A discoverer that passes the browser's cookies to `yt-dlp`.
    pub fn with_cookies(browser: String) -> (r: Self)
        ensures
            r.cookies_from_browser == Some(browser),
    {
        YoutubeDiscoverer { cookies_from_browser: Some(browser) }
    }

    /// The arguments of the `yt-dlp` search for a query: JSON dump of the top
    /// five results without download, and the cookie option when set.
    pub fn search_args(&self, query: &str) -> (r: Vec<String>)
        ensures
            r.deep_view() == (match self.cookies_from_browser {
                Some(b) => seq![
                    "--dump-json"@,
                    "--no-playlist"@,
                    "--skip-download"@,
                    "--remote-components"@,
                    "ejs:github"@,
                    "ytsearch5:"@ + query@,
                    "--cookies-from-browser"@,
                    b@,
                ],
                None => seq![
                    "--dump-json"@,
                    "--no-playlist"@,
                    "--skip-download"@,
                    "--remote-components"@,
                    "ejs:github"@,
                    "ytsearch5:"@ + query@,
                ],
            }),
    {
        let mut args: Vec<String> = Vec::new();
        args.push(String::from_str("--dump-json"));
        args.push(String::from_str("--no-playlist"));
        args.push(String::from_str("--skip-download"));
        args.push(String::from_str("--remote-components"));
        args.push(String::from_str("ejs:github"));
        let mut q: Vec<char> = Vec::new();
        push_str(&mut q, "ytsearch5:");
        push_str(&mut q, query);
        args.push(string_of(&q));
        match &self.cookies_from_browser {
            Some(b) => {
                args.push(String::from_str("--cookies-from-browser"));
                args.push(b.clone());
            },
            None => {},
        }
        assert(args.deep_view() =~= (match self.cookies_from_browser {
            Some(b) => seq![
                "--dump-json"@,
                "--no-playlist"@,
                "--skip-download"@,
                "--remote-components"@,
                "ejs:github"@,
                "ytsearch5:"@ + query@,
                "--cookies-from-browser"@,
                b@,
            ],
            None => seq![
                "--dump-json"@,
                "--no-playlist"@,
                "--skip-download"@,
                "--remote-components"@,
                "ejs:github"@,
                "ytsearch5:"@ + query@,
            ],
        }));
        args
    }

    /// The searches for a movie: `{title} {year} deleted scenes`,
    /// `... behind the scenes`, `... cast interview`, with their categories.
    pub fn build_search_queries(title: &str, year: u16) -> (r: Vec<(String, ContentCategory)>)
        ensures
            r@.len() == 3,
            forall|i: int|
                0 <= i < 3 ==> (#[trigger] r@[i].0@, r@[i].1) == movie_search_queries(
                    title@,
                    year,
                )[i],
    {
        let mut r: Vec<(String, ContentCategory)> = Vec::new();
        r.push((query_with(title, year, "deleted scenes"), ContentCategory::DeletedScene));
        r.push((query_with(title, year, "behind the scenes"), ContentCategory::BehindTheScenes));
        r.push((query_with(title, year, "cast interview"), ContentCategory::Interview));
        r
    }

    /// Durations from 30 seconds to 40 minutes are accepted.
    pub fn is_duration_valid(duration_secs: u32) -> (r: bool)
        ensures
            r == movie_duration_ok(duration_secs),
    {
        30 <= duration_secs && duration_secs <= 2400
    }

    /// A YouTube Short: under 60 seconds and taller than wide.
    pub fn is_youtube_short(duration_secs: u32, width: u32, height: u32) -> (r: bool)
        ensures
            r == is_short(duration_secs, width, height),
    {
        if duration_secs >= 60 {
            return false;
        }
        height > width
    }

    /// Whether a search result passes every filter.
    pub fn should_include_video(
        video_title: &str,
        movie_title: &str,
        duration_secs: u32,
        width: u32,
        height: u32,
        expected_year: u16,
    ) -> (r: bool)
        ensures
            r == movie_video_passes(
                video_title@,
                movie_title@,
                duration_secs,
                width,
                height,
                expected_year,
            ),
    {
        if !contains_movie_title(video_title, movie_title) {
            return false;
        }
        if mentions_sequel_number(video_title, movie_title) {
            return false;
        }
        if !Self::is_duration_valid(duration_secs) {
            return false;
        }
        if contains_excluded_keywords(video_title) {
            return false;
        }
        if mentions_different_year(video_title, expected_year) {
            return false;
        }
        if Self::is_youtube_short(duration_secs, width, height) {
            return false;
        }
        true
    }

    /// The source kept for one search result, if it passes the filters.
    pub fn source_from_video(
        video: YtdlpVideo,
        movie_title: &str,
        category: ContentCategory,
        expected_year: u16,
    ) -> (r: Option<VideoSource>)
        ensures
            match r {
                Some(s) => movie_source_of(video@, movie_title@, category, expected_year) == Some(
                    s@,
                ),
                None => movie_source_of(video@, movie_title@, category, expected_year) is None,
            },
    {
        if !Self::should_include_video(
            video.title.as_str(),
            movie_title,
            video.duration_secs,
            video.width,
            video.height,
            expected_year,
        ) {
            return None;
        }
        let resolved = match infer_category_from_title(video.title.as_str()) {
            Some(c) => c,
            None => category,
        };
        Some(
            VideoSource {
                url: video.url,
                source_type: SourceType::YouTube,
                category: resolved,
                title: video.title,
                season_number: None,
                duration_secs: Some(video.duration_secs),
            },
        )
    }

    /// The sources kept from the output of one search, line by line in
    /// order; lines that are not JSON are passed over.
    pub fn search_results(
        stdout: &str,
        movie_title: &str,
        category: ContentCategory,
        expected_year: u16,
    ) -> (r: Vec<VideoSource>)
        ensures
            video_views(r@) == movie_results(
                text_lines(stdout@),
                movie_title@,
                category,
                expected_year,
            ),
    {
        let lines = split_lines(stdout);
        let mut out: Vec<VideoSource> = Vec::new();
        let mut i: usize = 0;
        while i < lines.len()
            invariant
                i <= lines.len(),
                video_views(out@) == movie_results(
                    lines.deep_view().take(i as int),
                    movie_title@,
                    category,
                    expected_year,
                ),
            decreases lines.len() - i,
        {
            let ghost before = out@;
            assert(lines.deep_view().take(i + 1).drop_last() =~= lines.deep_view().take(i as int));
            assert(lines.deep_view().take(i + 1).last() == lines@[i as int]@);
            match video_from_line(lines[i].as_str()) {
                Some(v) => {
                    match Self::source_from_video(v, movie_title, category, expected_year) {
                        Some(s) => {
                            out.push(s);
                            assert(video_views(out@) =~= video_views(before).push(s@));
                        },
                        None => {},
                    }
                },
                None => {},
            }
            i = i + 1;
        }
        assert(lines.deep_view().take(lines.len() as int) =~= lines.deep_view());
        out
    }
}


/// A movie search result's duration passes from 30 seconds to 40 minutes,
/// both included; a Short is under a minute and taller than wide.
pub proof fn law_movie_duration_and_shorts(d: u32, width: u32, height: u32)
    ensures
        movie_duration_ok(d) == (30 <= d && d <= 2400),
        is_short(d, width, height) == (d < 60 && height > width),
{
}

} // verus!
