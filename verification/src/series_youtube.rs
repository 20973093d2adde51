//! YouTube discovery for TV series: series-level and season searches, the
//! filters a result must pass, and the extras kept from `yt-dlp` output.
use vstd::prelude::*;
use vstd::string::StringExecFns;
use crate::models::{ContentCategory, SeriesExtra, SeriesExtraView, SourceType, extra_views};
use crate::text::{
    chars_of, contains_seq, decimal, lemma_contains_middle, lowercase, push_decimal, push_str,
    split_lines, str_lowercase, string_of, text_lines,
};
use crate::title_matching::{
    contains_excluded_keywords, contains_movie_title, extract_season_numbers,
    has_excluded_keyword, mentioned_seasons, mentions_only_unavailable, normalize_title_text,
    references_unavailable_season,
};
use crate::youtube::is_short;
use crate::ytdlp::{YtdlpVideo, YtdlpVideoView, video_from_line, video_of_line};

verus! {

/// `{title}` or `{title} {year}`.
pub open spec fn series_base(title: Seq<char>, year: Option<u16>) -> Seq<char> {
    match year {
        Some(y) => title + " "@ + decimal(y as nat),
        None => title,
    }
}

/// `{title} season {n}` or `{title} {year} season {n}`.
pub open spec fn season_base(title: Seq<char>, year: Option<u16>, season: u8) -> Seq<char> {
    series_base(title, year) + " season "@ + decimal(season as nat)
}

/// The three searches on a base text: cast interviews, behind the scenes,
/// featurettes, each with its category.
pub open spec fn queries_on(base: Seq<char>) -> Seq<(Seq<char>, ContentCategory)> {
    seq![
        (base + " cast interview"@, ContentCategory::Interview),
        (base + " behind the scenes"@, ContentCategory::BehindTheScenes),
        (base + " featurette"@, ContentCategory::Featurette),
    ]
}

/// Durations from 30 seconds to 20 minutes are accepted.
pub open spec fn series_duration_ok(d: u32) -> bool {
    30 <= d <= 1200
}

/// A search result is kept when its title contains the series title
/// (normalized), its duration is accepted, it carries no excluded keyword
/// and it is not a Short.
pub open spec fn series_video_passes(
    video_title: Seq<char>,
    series_title: Seq<char>,
    d: u32,
    width: u32,
    height: u32,
) -> bool {
    &&& contains_seq(normalize_title_text(video_title), normalize_title_text(series_title))
    &&& series_duration_ok(d)
    &&& !has_excluded_keyword(video_title)
    &&& !is_short(d, width, height)
}

/// The series identifier: the lowercased title with spaces made underscores.
pub open spec fn series_id_text(title: Seq<char>) -> Seq<char> {
    str_lowercase(title).map_values(
        |c: char|
            if c == ' ' {
                '_'
            } else {
                c
            },
    )
}

/// The extra kept for a search result: filed under the first season its
/// title mentions, or series-level when it mentions none.
pub open spec fn series_extra_of(
    v: YtdlpVideoView,
    series_title: Seq<char>,
    category: ContentCategory,
) -> Option<SeriesExtraView> {
    if series_video_passes(v.title, series_title, v.duration_secs, v.width, v.height) {
        let seasons = mentioned_seasons(v.title);
        Some(
            SeriesExtraView {
                series_id: series_id_text(series_title),
                season_number: if seasons.len() > 0 {
                    Some(seasons[0])
                } else {
                    None
                },
                category,
                title: v.title,
                url: v.url,
                source_type: SourceType::YouTube,
                local_path: None,
                duration_secs: Some(v.duration_secs),
            },
        )
    } else {
        None
    }
}

/// The extras kept from the output lines of one search, in output order.
pub open spec fn series_results(
    lines: Seq<Seq<char>>,
    series_title: Seq<char>,
    category: ContentCategory,
) -> Seq<SeriesExtraView>
    decreases lines.len(),
{
    if lines.len() == 0 {
        seq![]
    } else {
        let prev = series_results(lines.drop_last(), series_title, category);
        match video_of_line(lines.last()) {
            Some(v) => match series_extra_of(v, series_title, category) {
                Some(s) => prev.push(s),
                None => prev,
            },
            None => prev,
        }
    }
}

/// The extras whose titles do not point only at seasons missing on disk,
/// in order.
pub open spec fn on_disk_extras(extras: Seq<SeriesExtraView>, seasons: Seq<u8>) -> Seq<
    SeriesExtraView,
>
    decreases extras.len(),
{
    if extras.len() == 0 {
        seq![]
    } else {
        let prev = on_disk_extras(extras.drop_last(), seasons);
        if mentions_only_unavailable(mentioned_seasons(extras.last().title), seasons) {
            prev
        } else {
            prev.push(extras.last())
        }
    }
}

/// YouTube content discoverer for TV series.
pub struct YoutubeSeriesDiscoverer;

fn queries_from(base: &Vec<char>) -> (r: Vec<(String, ContentCategory)>)
    ensures
        r@.len() == 3,
        forall|i: int| 0 <= i < 3 ==> (#[trigger] r@[i].0@, r@[i].1) == queries_on(base@)[i],
{
    let mut r: Vec<(String, ContentCategory)> = Vec::new();
    let mut a = base.clone();
    push_str(&mut a, " cast interview");
    r.push((string_of(&a), ContentCategory::Interview));
    let mut b = base.clone();
    push_str(&mut b, " behind the scenes");
    r.push((string_of(&b), ContentCategory::BehindTheScenes));
    let mut c = base.clone();
    push_str(&mut c, " featurette");
    r.push((string_of(&c), ContentCategory::Featurette));
    r
}

fn push_base(v: &mut Vec<char>, title: &str, year: Option<u16>)
    ensures
        final(v)@ == old(v)@ + series_base(title@, year),
{
    push_str(v, title);
    match year {
        Some(y) => {
            push_str(v, " ");
            push_decimal(v, y as u64);
        },
        None => {},
    }
}

impl YoutubeSeriesDiscoverer {
    /// A new discoverer.
    pub fn new() -> (r: Self) {
        YoutubeSeriesDiscoverer
    }

    /// The identifier of a series' extras: the lowercased title with spaces
    /// replaced by underscores.
    pub fn series_id(series_title: &str) -> (r: String)
        ensures
            r@ == series_id_text(series_title@),
    {
        let l = lowercase(series_title);
        let cs = chars_of(l.as_str());
        let mut out: Vec<char> = Vec::new();
        let mut i: usize = 0;
        while i < cs.len()
            invariant
                i <= cs.len(),
                cs@ == str_lowercase(series_title@),
                out@ == cs@.take(i as int).map_values(
                    |c: char|
                        if c == ' ' {
                            '_'
                        } else {
                            c
                        },
                ),
            decreases cs.len() - i,
        {
            let c = cs[i];
            out.push(if c == ' ' { '_' } else { c });
            i = i + 1;
            assert(out@ =~= cs@.take(i as int).map_values(
                |c: char|
                    if c == ' ' {
                        '_'
                    } else {
                        c
                    },
            ));
        }
        assert(cs@.take(cs.len() as int) =~= cs@);
        string_of(&out)
    }

    /// The arguments of the `yt-dlp` search for a query: JSON dump of the top
    /// five results without download.
    pub fn search_args(query: &str) -> (r: Vec<String>)
        ensures
            r.deep_view() == seq![
                "--dump-json"@,
                "--no-playlist"@,
                "--skip-download"@,
                "ytsearch5:"@ + query@,
            ],
    {
        let mut args: Vec<String> = Vec::new();
        args.push(String::from_str("--dump-json"));
        args.push(String::from_str("--no-playlist"));
        args.push(String::from_str("--skip-download"));
        let mut q: Vec<char> = Vec::new();
        push_str(&mut q, "ytsearch5:");
        push_str(&mut q, query);
        args.push(string_of(&q));
        assert(args.deep_view() =~= seq![
            "--dump-json"@,
            "--no-playlist"@,
            "--skip-download"@,
            "ytsearch5:"@ + query@,
        ]);
        args
    }

    /// Searches for series-level extras: `{title}[ {year}] cast interview`,
    /// `... behind the scenes`, `... featurette`, with their categories.
    pub fn build_series_search_queries(title: &str, year: Option<u16>) -> (r: Vec<
        (String, ContentCategory),
    >)
        ensures
            r@.len() == 3,
            forall|i: int|
                0 <= i < 3 ==> (#[trigger] r@[i].0@, r@[i].1) == queries_on(
                    series_base(title@, year),
                )[i],
    {
        let mut base: Vec<char> = Vec::new();
        push_base(&mut base, title, year);
        queries_from(&base)
    }

    /// Searches for a season's extras: `{title}[ {year}] season {n} cast
    /// interview`, `... behind the scenes`, `... featurette`.
    pub fn build_season_search_queries(title: &str, year: Option<u16>, season: u8) -> (r: Vec<
        (String, ContentCategory),
    >)
        ensures
            r@.len() == 3,
            forall|i: int|
                0 <= i < 3 ==> (#[trigger] r@[i].0@, r@[i].1) == queries_on(
                    season_base(title@, year, season),
                )[i],
    {
        let mut base: Vec<char> = Vec::new();
        push_base(&mut base, title, year);
        push_str(&mut base, " season ");
        push_decimal(&mut base, season as u64);
        queries_from(&base)
    }

    /// Durations from 30 seconds to 20 minutes are accepted.
    pub fn is_duration_valid(duration_secs: u32) -> (r: bool)
        ensures
            r == series_duration_ok(duration_secs),
    {
        30 <= duration_secs && duration_secs <= 1200
    }

    /// A YouTube Short: under 60 seconds and taller than wide.
    pub fn is_youtube_short(duration_secs: u32, width: u32, height: u32) -> (r: bool)
        ensures
            r == is_short(duration_secs, width, height),
    {
        if duration_secs >= 60 {
            return false;
        }
        height > width
    }

    /// Whether a search result passes every filter.
    pub fn should_include_video(
        video_title: &str,
        series_title: &str,
        duration_secs: u32,
        width: u32,
        height: u32,
    ) -> (r: bool)
        ensures
            r == series_video_passes(video_title@, series_title@, duration_secs, width, height),
    {
        if !contains_movie_title(video_title, series_title) {
            return false;
        }
        if !Self::is_duration_valid(duration_secs) {
            return false;
        }
        if contains_excluded_keywords(video_title) {
            return false;
        }
        if Self::is_youtube_short(duration_secs, width, height) {
            return false;
        }
        true
    }

    /// The extra kept for one search result, if it passes the filters.
    pub fn extra_from_video(video: YtdlpVideo, series_title: &str, category: ContentCategory) -> (r:
        Option<SeriesExtra>)
        ensures
            match r {
                Some(s) => series_extra_of(video@, series_title@, category) == Some(s@),
                None => series_extra_of(video@, series_title@, category) is None,
            },
    {
        if !Self::should_include_video(
            video.title.as_str(),
            series_title,
            video.duration_secs,
            video.width,
            video.height,
        ) {
            return None;
        }
        let seasons = extract_season_numbers(video.title.as_str());
        let season = if seasons.len() > 0 {
            Some(seasons[0])
        } else {
            None
        };
        Some(
            SeriesExtra {
                series_id: Self::series_id(series_title),
                season_number: season,
                category,
                title: video.title,
                url: video.url,
                source_type: SourceType::YouTube,
                local_path: None,
                duration_secs: Some(video.duration_secs),
            },
        )
    }

    /// The extras kept from the output of one search, line by line in
    /// order; lines that are not JSON are passed over.
    pub fn search_results(stdout: &str, series_title: &str, category: ContentCategory) -> (r: Vec<
        SeriesExtra,
    >)
        ensures
            extra_views(r@) == series_results(text_lines(stdout@), series_title@, category),
    {
        let lines = split_lines(stdout);
        let mut out: Vec<SeriesExtra> = Vec::new();
        let mut i: usize = 0;
        while i < lines.len()
            invariant
                i <= lines.len(),
                extra_views(out@) == series_results(
                    lines.deep_view().take(i as int),
                    series_title@,
                    category,
                ),
            decreases lines.len() - i,
        {
            let ghost before = out@;
            assert(lines.deep_view().take(i + 1).drop_last() =~= lines.deep_view().take(i as int));
            assert(lines.deep_view().take(i + 1).last() == lines@[i as int]@);
            match video_from_line(lines[i].as_str()) {
                Some(v) => {
                    match Self::extra_from_video(v, series_title, category) {
                        Some(s) => {
                            out.push(s);
                            assert(extra_views(out@) =~= extra_views(before).push(s@));
                        },
                        None => {},
                    }
                },
                None => {},
            }
            i = i + 1;
        }
        assert(lines.deep_view().take(lines.len() as int) =~= lines.deep_view());
        out
    }

    /// Drops the extras whose titles mention only seasons that are not on
    /// disk; the others stay in order.
    pub fn retain_available_seasons(extras: Vec<SeriesExtra>, seasons: &[u8]) -> (r: Vec<
        SeriesExtra,
    >)
        ensures
            extra_views(r@) == on_disk_extras(extra_views(extras@), seasons@),
    {
        let mut out: Vec<SeriesExtra> = Vec::new();
        let mut rest = extras;
        let ghost all = extra_views(rest@);
        let mut i: usize = 0;
        let n = rest.len();
        while rest.len() > 0
            invariant
                i + rest.len() == n,
                n == all.len(),
                extra_views(rest@) == all.skip(i as int),
                extra_views(out@) == on_disk_extras(all.take(i as int), seasons@),
            decreases rest.len(),
        {
            let ghost old_rest = rest@;
            let e = rest.remove(0);
            proof {
                assert(all.take(i + 1).drop_last() =~= all.take(i as int));
                assert(all.take(i + 1).last() == all[i as int]);
                assert(extra_views(old_rest)[0] == all.skip(i as int)[0]);
                assert forall|k: int| 0 <= k < rest@.len() implies #[trigger] extra_views(rest@)[k]
                    == all.skip(i + 1)[k] by {
                    assert(rest@[k] == old_rest[k + 1]);
                    assert(extra_views(old_rest)[k + 1] == all.skip(i as int)[k + 1]);
                }
                assert(extra_views(rest@) =~= all.skip(i + 1));
            }
            let ghost before = out@;
            if !references_unavailable_season(e.title.as_str(), seasons) {
                out.push(e);
                assert(extra_views(out@) =~= extra_views(before).push(e@));
            }
            i = i + 1;
        }
        assert(all.take(n as int) =~= all);
        out
    }
}

/// Every series search names the series, and its year when there is one.
pub proof fn law_series_queries_name_the_series(title: Seq<char>, year: Option<u16>, i: int)
    requires
        0 <= i < 3,
    ensures
        contains_seq(queries_on(series_base(title, year))[i].0, title),
        year matches Some(y) ==> contains_seq(queries_on(series_base(title, year))[i].0, decimal(y as nat)),
{
    let q = queries_on(series_base(title, year))[i].0;
    let tail = q.subrange(series_base(title, year).len() as int, q.len() as int);
    assert(q =~= series_base(title, year) + tail);
    match year {
        Some(y) => {
            assert(q =~= seq![] + title + (" "@ + decimal(y as nat) + tail));
            lemma_contains_middle(seq![], title, " "@ + decimal(y as nat) + tail);
            assert(q =~= (title + " "@) + decimal(y as nat) + tail);
            lemma_contains_middle(title + " "@, decimal(y as nat), tail);
        },
        None => {
            assert(q =~= seq![] + title + tail);
            lemma_contains_middle(seq![], title, tail);
        },
    }
}

/// Every season search names the series, the season as `season {n}`, and
/// the year when there is one.
pub proof fn law_season_queries_name_the_season(
    title: Seq<char>,
    year: Option<u16>,
    season: u8,
    i: int,
)
    requires
        0 <= i < 3,
    ensures
        contains_seq(queries_on(season_base(title, year, season))[i].0, title),
        contains_seq(
            queries_on(season_base(title, year, season))[i].0,
            "season "@ + decimal(season as nat),
        ),
        year matches Some(y) ==> contains_seq(
            queries_on(season_base(title, year, season))[i].0,
            decimal(y as nat),
        ),
{
    reveal_strlit(" season ");
    reveal_strlit("season ");
    reveal_strlit(" ");
    let b = series_base(title, year);
    let q = queries_on(season_base(title, year, season))[i].0;
    let tail = q.subrange(season_base(title, year, season).len() as int, q.len() as int);
    assert(q =~= b + " season "@ + decimal(season as nat) + tail);
    assert(q =~= (b + " "@) + ("season "@ + decimal(season as nat)) + tail);
    lemma_contains_middle(b + " "@, "season "@ + decimal(season as nat), tail);
    let rest = q.subrange(title.len() as int, q.len() as int);
    assert(q =~= seq![] + title + rest);
    lemma_contains_middle(seq![], title, rest);
    match year {
        Some(y) => {
            let after = q.subrange(b.len() as int, q.len() as int);
            assert(q =~= (title + " "@) + decimal(y as nat) + after);
            lemma_contains_middle(title + " "@, decimal(y as nat), after);
        },
        None => {},
    }
}


/// A series search result's duration passes from 30 seconds to 20 minutes,
/// both included.
pub proof fn law_series_duration(d: u32)
    ensures
        series_duration_ok(d) == (30 <= d && d <= 1200),
{
}

} // verus!
