//! The decisions of series discovery: which sources a mode asks, which
//! seasons are searched, when an episode title needs its English name, and
//! the searches built for Season 0 specials.
use vstd::prelude::*;
use crate::models::{ContentCategory, SeriesExtra, SeriesExtraView, SourceType, extra_views};
use crate::special_searcher::{SpecialSearcher, special_queries, standard_query};
use crate::text::{chars_of, decimal, decimal_padded, push_chars, push_decimal, push_decimal_padded, push_str, string_of};
use crate::tvdb::{TvdbEpisode, TvdbEpisodeExtended};
use crate::monitor_policy::{MonitorPolicy, law_monitored_exact, monitored};
use crate::series_youtube::{YoutubeSeriesDiscoverer, on_disk_extras};
use crate::title_matching::{mentioned_seasons, mentions_only_unavailable};

verus! {

/// Which sources series discovery asks.
#[derive(Debug, Clone, Copy, PartialEq, Eq, Structural)]
pub enum SourceMode {
    /// TMDB and YouTube
    All,
    /// YouTube only
    YoutubeOnly,
}

impl SourceMode {
    /// Whether TMDB is asked in this mode (YouTube always is).
    pub fn queries_tmdb(&self) -> (r: bool)
        ensures
            r == (*self == SourceMode::All),
    {
        match self {
            SourceMode::All => true,
            SourceMode::YoutubeOnly => false,
        }
    }
}

/// A code point of the CJK, Hangul, Arabic or Cyrillic blocks.
pub open spec fn is_non_latin(c: char) -> bool {
    let n = c as u32;
    (0x3000 <= n <= 0x9FFF) || (0xAC00 <= n <= 0xD7AF) || (0x0600 <= n <= 0x06FF) || (0x0400
        <= n <= 0x04FF)
}

/// The largest season number, or 0 when there is none.
pub open spec fn max_season(seasons: Seq<u8>) -> u8
    decreases seasons.len(),
{
    if seasons.len() == 0 {
        0
    } else {
        let m = max_season(seasons.drop_last());
        if seasons.last() > m {
            seasons.last()
        } else {
            m
        }
    }
}

/// The identifier of a series' specials: the title with spaces made
/// underscores, `_`, and the year (0 when unknown).
pub open spec fn specials_series_id(title: Seq<char>, year: Option<u16>) -> Seq<char> {
    title.map_values(
        |c: char|
            if c == ' ' {
                '_'
            } else {
                c
            },
    ) + "_"@ + decimal(
        match year {
            Some(y) => y as nat,
            None => 0,
        },
    )
}

/// `S00E{number:02} - {name}`.
pub open spec fn special_title(e: TvdbEpisodeExtended) -> Seq<char> {
    "S00E"@ + decimal_padded(e.number as nat, 2) + " - "@ + e.name@
}

/// The search item for a special: filed as a featurette of Season 0, found
/// through TheTVDB, with the search given as the URL.
pub open spec fn special_search(
    title: Seq<char>,
    year: Option<u16>,
    e: TvdbEpisodeExtended,
    url: Seq<char>,
) -> SeriesExtraView {
    SeriesExtraView {
        series_id: specials_series_id(title, year),
        season_number: Some(0),
        category: ContentCategory::Featurette,
        title: special_title(e),
        url,
        source_type: SourceType::TheTVDB,
        local_path: None,
        duration_secs: None,
    }
}

/// One search per special, with its standard query and the single best
/// result (`ytsearch1:`).
pub open spec fn best_special_searches(
    title: Seq<char>,
    year: Option<u16>,
    eps: Seq<TvdbEpisodeExtended>,
) -> Seq<SeriesExtraView> {
    Seq::new(
        eps.len(),
        |k: int| special_search(title, year, eps[k], "ytsearch1:"@ + standard_query(title, eps[k])),
    )
}

/// Every query of every special, each asking for five results
/// (`ytsearch5:`), special after special.
pub open spec fn all_special_searches(
    title: Seq<char>,
    year: Option<u16>,
    eps: Seq<TvdbEpisodeExtended>,
) -> Seq<SeriesExtraView>
    decreases eps.len(),
{
    if eps.len() == 0 {
        seq![]
    } else {
        let e = eps.last();
        let qs = special_queries(title, e);
        all_special_searches(title, year, eps.drop_last()) + Seq::new(
            qs.len(),
            |q: int| special_search(title, year, e, "ytsearch5:"@ + qs[q]),
        )
    }
}

/// The two episode records hold the same data.
pub open spec fn same_episode(a: TvdbEpisodeExtended, b: TvdbEpisodeExtended) -> bool {
    &&& a.id == b.id
    &&& a.number == b.number
    &&& a.name@ == b.name@
    &&& a.name_eng.deep_view() == b.name_eng.deep_view()
    &&& a.aired.deep_view() == b.aired.deep_view()
    &&& a.overview.deep_view() == b.overview.deep_view()
    &&& a.absolute_number == b.absolute_number
    &&& a.airs_before_season == b.airs_before_season
    &&& a.airs_after_season == b.airs_after_season
    &&& a.airs_before_episode == b.airs_before_episode
    &&& a.is_movie == b.is_movie
}

fn copy_text(s: &Option<String>) -> (r: Option<String>)
    ensures
        r.deep_view() == s.deep_view(),
{
    match s {
        Some(t) => Some(t.clone()),
        None => None,
    }
}

/// A copy of an episode record.
pub fn copy_episode(e: &TvdbEpisodeExtended) -> (r: TvdbEpisodeExtended)
    ensures
        same_episode(r, *e),
{
    TvdbEpisodeExtended {
        id: e.id,
        number: e.number,
        name: e.name.clone(),
        name_eng: copy_text(&e.name_eng),
        aired: copy_text(&e.aired),
        overview: copy_text(&e.overview),
        absolute_number: e.absolute_number,
        airs_before_season: e.airs_before_season,
        airs_after_season: e.airs_after_season,
        airs_before_episode: e.airs_before_episode,
        is_movie: e.is_movie,
    }
}

/// Whether a text has a CJK, Hangul, Arabic or Cyrillic character (an
/// episode name that likely needs its English translation).
pub fn contains_non_latin(text: &str) -> (r: bool)
    ensures
        r == exists|i: int| 0 <= i < text@.len() && is_non_latin(#[trigger] text@[i]),
{
    let cs = chars_of(text);
    let mut i: usize = 0;
    while i < cs.len()
        invariant
            i <= cs.len(),
            cs@ == text@,
            forall|k: int| 0 <= k < i ==> !is_non_latin(#[trigger] cs@[k]),
        decreases cs.len() - i,
    {
        let n = cs[i] as u32;
        if (0x3000 <= n && n <= 0x9FFF) || (0xAC00 <= n && n <= 0xD7AF) || (0x0600 <= n && n
            <= 0x06FF) || (0x0400 <= n && n <= 0x04FF) {
            assert(is_non_latin(cs@[i as int]));
            return true;
        }
        i = i + 1;
    }
    false
}

/// The latest season on disk: the largest season number, or 0.
pub fn latest_season(seasons: &[u8]) -> (r: u8)
    ensures
        r == max_season(seasons@),
{
    let mut m: u8 = 0;
    let mut i: usize = 0;
    assert(seasons@.take(0) =~= Seq::<u8>::empty());
    while i < seasons.len()
        invariant
            i <= seasons.len(),
            m == max_season(seasons@.take(i as int)),
        decreases seasons.len() - i,
    {
        assert(seasons@.take(i + 1).drop_last() =~= seasons@.take(i as int));
        if seasons[i] > m {
            m = seasons[i];
        }
        i = i + 1;
    }
    assert(seasons@.take(seasons.len() as int) =~= seasons@);
    m
}

/// Whether the season is on disk (season searches are made only then).
pub fn season_on_disk(seasons: &[u8], season: u8) -> (r: bool)
    ensures
        r == seasons@.contains(season),
{
    let mut i: usize = 0;
    while i < seasons.len()
        invariant
            i <= seasons.len(),
            forall|k: int| 0 <= k < i ==> seasons@[k] != season,
        decreases seasons.len() - i,
    {
        if seasons[i] == season {
            assert(seasons@[i as int] == season);
            return true;
        }
        i = i + 1;
    }
    false
}

/// The extended record of an episode whose extended data could not be
/// fetched: the base data, and nothing of the rest.
pub fn extended_from_base(e: TvdbEpisode) -> (r: TvdbEpisodeExtended)
    ensures
        r.id == e.id,
        r.number == e.number,
        r.name == e.name,
        r.aired == e.aired,
        r.overview == e.overview,
        r.name_eng is None,
        r.absolute_number is None,
        r.airs_before_season is None,
        r.airs_after_season is None,
        r.airs_before_episode is None,
        r.is_movie is None,
{
    TvdbEpisodeExtended {
        id: e.id,
        number: e.number,
        name: e.name,
        name_eng: None,
        aired: e.aired,
        overview: e.overview,
        absolute_number: None,
        airs_before_season: None,
        airs_after_season: None,
        airs_before_episode: None,
        is_movie: None,
    }
}

fn series_id_of(title: &str, year: Option<u16>) -> (r: String)
    ensures
        r@ == specials_series_id(title@, year),
{
    let cs = chars_of(title);
    let mut out: Vec<char> = Vec::new();
    let mut i: usize = 0;
    while i < cs.len()
        invariant
            i <= cs.len(),
            cs@ == title@,
            out@ == cs@.take(i as int).map_values(
                |c: char|
                    if c == ' ' {
                        '_'
                    } else {
                        c
                    },
            ),
        decreases cs.len() - i,
    {
        let c = cs[i];
        out.push(if c == ' ' { '_' } else { c });
        i = i + 1;
        assert(out@ =~= cs@.take(i as int).map_values(
            |c: char|
                if c == ' ' {
                    '_'
                } else {
                    c
                },
        ));
    }
    assert(cs@.take(cs.len() as int) =~= cs@);
    push_str(&mut out, "_");
    let y: u64 = match year {
        Some(y) => y as u64,
        None => 0,
    };
    push_decimal(&mut out, y);
    string_of(&out)
}

fn special_item(
    series_title: &str,
    year: Option<u16>,
    e: &TvdbEpisodeExtended,
    prefix: &str,
    query: &String,
) -> (r: SeriesExtra)
    ensures
        r@ == special_search(series_title@, year, *e, prefix@ + query@),
{
    let mut t: Vec<char> = Vec::new();
    push_str(&mut t, "S00E");
    push_decimal_padded(&mut t, e.number as u64, 2);
    push_str(&mut t, " - ");
    push_str(&mut t, e.name.as_str());
    let mut u: Vec<char> = Vec::new();
    push_str(&mut u, prefix);
    push_str(&mut u, query.as_str());
    SeriesExtra {
        series_id: series_id_of(series_title, year),
        season_number: Some(0),
        category: ContentCategory::Featurette,
        title: string_of(&t),
        url: string_of(&u),
        source_type: SourceType::TheTVDB,
        local_path: None,
        duration_secs: None,
    }
}

/// The searches for the monitored specials, one per special with its
/// standard query and the single best result, and the specials' metadata in
/// the same order for validating what the searches return.
pub fn season_zero_searches(
    series_title: &str,
    year: Option<u16>,
    monitored: &Vec<&TvdbEpisodeExtended>,
) -> (r: (Vec<SeriesExtra>, Vec<TvdbEpisodeExtended>))
    ensures
        extra_views(r.0@) == best_special_searches(
            series_title@,
            year,
            Seq::new(monitored@.len(), |k: int| *monitored@[k]),
        ),
        r.1@.len() == monitored@.len(),
        forall|k: int| 0 <= k < r.1@.len() ==> same_episode(#[trigger] r.1@[k], *monitored@[k]),
{
    let ghost eps = Seq::new(monitored@.len(), |k: int| *monitored@[k]);
    let mut specials: Vec<SeriesExtra> = Vec::new();
    let mut metadata: Vec<TvdbEpisodeExtended> = Vec::new();
    let mut i: usize = 0;
    while i < monitored.len()
        invariant
            i <= monitored.len(),
            eps == Seq::new(monitored@.len(), |k: int| *monitored@[k]),
            extra_views(specials@) == best_special_searches(series_title@, year, eps.take(i as int)),
            metadata@.len() == i,
            forall|k: int| 0 <= k < i ==> same_episode(#[trigger] metadata@[k], *monitored@[k]),
        decreases monitored.len() - i,
    {
        let e = monitored[i];
        let queries = SpecialSearcher::build_queries(series_title, e);
        assert(special_queries(series_title@, *e).len() >= 2);
        assert(queries.deep_view().len() == queries@.len());
        assert(queries.deep_view()[0] == standard_query(series_title@, *e));
        assert(queries@[0]@ == queries.deep_view()[0]);
        let ghost before = extra_views(specials@);
        let item = special_item(series_title, year, e, "ytsearch1:", &queries[0]);
        specials.push(item);
        assert(eps[i as int] == *e);
        assert(extra_views(specials@) =~= before.push(item@));
        assert(best_special_searches(series_title@, year, eps.take(i + 1)) =~= best_special_searches(
            series_title@,
            year,
            eps.take(i as int),
        ).push(item@));
        metadata.push(copy_episode(e));
        i = i + 1;
    }
    assert(eps.take(monitored.len() as int) =~= eps);
    (specials, metadata)
}

/// Every query of every monitored special, each asking for five results,
/// special after special.
pub fn season_zero_all_searches(
    series_title: &str,
    year: Option<u16>,
    monitored: &Vec<&TvdbEpisodeExtended>,
) -> (r: Vec<SeriesExtra>)
    ensures
        extra_views(r@) == all_special_searches(
            series_title@,
            year,
            Seq::new(monitored@.len(), |k: int| *monitored@[k]),
        ),
{
    let ghost eps = Seq::new(monitored@.len(), |k: int| *monitored@[k]);
    let mut specials: Vec<SeriesExtra> = Vec::new();
    let mut i: usize = 0;
    assert(eps.take(0) =~= Seq::<TvdbEpisodeExtended>::empty());
    while i < monitored.len()
        invariant
            i <= monitored.len(),
            eps == Seq::new(monitored@.len(), |k: int| *monitored@[k]),
            extra_views(specials@) == all_special_searches(series_title@, year, eps.take(i as int)),
        decreases monitored.len() - i,
    {
        let e = monitored[i];
        let queries = SpecialSearcher::build_queries(series_title, e);
        let ghost qs = special_queries(series_title@, *e);
        let ghost start = extra_views(specials@);
        let mut q: usize = 0;
        while q < queries.len()
            invariant
                q <= queries.len(),
                queries.deep_view() == qs,
                extra_views(specials@) == start + Seq::new(
                    q as nat,
                    |j: int| special_search(series_title@, year, *e, "ytsearch5:"@ + qs[j]),
                ),
            decreases queries.len() - q,
        {
            assert(queries@[q as int]@ == qs[q as int]);
            let item = special_item(series_title, year, e, "ytsearch5:", &queries[q]);
            let ghost prev = extra_views(specials@);
            specials.push(item);
            assert(extra_views(specials@) =~= prev.push(item@));
            q = q + 1;
            assert(extra_views(specials@) =~= start + Seq::new(
                q as nat,
                |j: int| special_search(series_title@, year, *e, "ytsearch5:"@ + qs[j]),
            ));
        }
        assert(eps.take(i + 1).drop_last() =~= eps.take(i as int));
        assert(eps.take(i + 1).last() == *e);
        i = i + 1;
    }
    assert(eps.take(monitored.len() as int) =~= eps);
    specials
}


/// The Season 0 searches of a series and the specials' metadata, from what
/// TheTVDB gave: none at all without TheTVDB support; otherwise one search
/// per special of `episodes` that is not excluded, in order (the latest
/// season on disk is worked out as the policy asks, and plays no part in
/// which specials are monitored).
pub fn season_zero_plan(
    tvdb_enabled: bool,
    series_title: &str,
    year: Option<u16>,
    episodes: &Vec<TvdbEpisodeExtended>,
    seasons: &[u8],
    excluded: &[u8],
) -> (r: (Vec<SeriesExtra>, Vec<TvdbEpisodeExtended>))
    ensures
        !tvdb_enabled ==> r.0@.len() == 0 && r.1@.len() == 0,
        tvdb_enabled ==> {
            &&& extra_views(r.0@) == best_special_searches(
                series_title@,
                year,
                monitored(episodes@, excluded@),
            )
            &&& r.1@.len() == monitored(episodes@, excluded@).len()
            &&& forall|k: int|
                0 <= k < r.1@.len() ==> same_episode(
                    #[trigger] r.1@[k],
                    monitored(episodes@, excluded@)[k],
                )
        },
{
    if !tvdb_enabled {
        return (Vec::new(), Vec::new());
    }
    let latest = latest_season(seasons);
    let chosen = MonitorPolicy::filter_monitored(episodes.as_slice(), latest, excluded);
    let ghost m = monitored(episodes@, excluded@);
    assert(Seq::new(chosen@.len(), |k: int| *chosen@[k]) =~= m);
    season_zero_searches(series_title, year, &chosen)
}

/// A Season 0 search is made only for a special that is not excluded: each
/// search names its special, and no searched special's number is in the
/// exclusion list.
pub proof fn law_excluded_specials_never_searched(
    series_title: Seq<char>,
    year: Option<u16>,
    episodes: Seq<TvdbEpisodeExtended>,
    excluded: Seq<u8>,
)
    ensures
        best_special_searches(series_title, year, monitored(episodes, excluded)).len()
            == monitored(episodes, excluded).len(),
        forall|k: int|
            0 <= k < monitored(episodes, excluded).len() ==> {
                &&& #[trigger] best_special_searches(series_title, year, monitored(episodes, excluded))[k].title
                    == special_title(monitored(episodes, excluded)[k])
                &&& !excluded.contains(monitored(episodes, excluded)[k].number)
            },
{
    law_monitored_exact(episodes, excluded);
}

/// The series-level extras kept: in the mode that asks TMDB, TMDB's extras,
/// then YouTube's; in the YouTube-only mode, YouTube's alone (TMDB's, if any
/// were given, are not used). From either source an extra whose title points
/// only at seasons missing on disk is dropped; the others keep their order.
pub fn series_level_extras(
    mode: SourceMode,
    tmdb: Vec<SeriesExtra>,
    youtube: Vec<SeriesExtra>,
    seasons: &[u8],
) -> (r: Vec<SeriesExtra>)
    ensures
        extra_views(r@) == series_extras_kept(mode, extra_views(tmdb@), extra_views(youtube@), seasons@),
{
    let mut yt = YoutubeSeriesDiscoverer::retain_available_seasons(youtube, seasons);
    let ghost b = extra_views(yt@);
    if mode.queries_tmdb() {
        let mut kept = YoutubeSeriesDiscoverer::retain_available_seasons(tmdb, seasons);
        let ghost a = extra_views(kept@);
        kept.append(&mut yt);
        assert(extra_views(kept@) =~= a + b);
        kept
    } else {
        assert(Seq::<SeriesExtraView>::empty() + b =~= b);
        yt
    }
}

/// The series-level extras kept from what TMDB and YouTube gave: TMDB's
/// (only in the mode that asks TMDB), then YouTube's, each without the
/// extras whose titles point only at seasons missing on disk.
pub open spec fn series_extras_kept(
    mode: SourceMode,
    tmdb: Seq<SeriesExtraView>,
    youtube: Seq<SeriesExtraView>,
    seasons: Seq<u8>,
) -> Seq<SeriesExtraView> {
    (if mode == SourceMode::All {
        on_disk_extras(tmdb, seasons)
    } else {
        Seq::<SeriesExtraView>::empty()
    }) + on_disk_extras(youtube, seasons)
}

/// No series-level extra that is kept points only at seasons missing on
/// disk, whatever the sources gave; in the YouTube-only mode every kept
/// extra is one of YouTube's.
pub proof fn law_series_extras_on_disk(
    mode: SourceMode,
    tmdb: Seq<SeriesExtraView>,
    youtube: Seq<SeriesExtraView>,
    seasons: Seq<u8>,
)
    ensures
        forall|k: int|
            0 <= k < series_extras_kept(mode, tmdb, youtube, seasons).len()
                ==> !mentions_only_unavailable(
                mentioned_seasons(
                    (#[trigger] series_extras_kept(mode, tmdb, youtube, seasons)[k]).title,
                ),
                seasons,
            ),
        mode == SourceMode::YoutubeOnly ==> series_extras_kept(mode, tmdb, youtube, seasons)
            == on_disk_extras(youtube, seasons),
{
    lemma_on_disk_members(tmdb, seasons);
    lemma_on_disk_members(youtube, seasons);
    let t = if mode == SourceMode::All {
        on_disk_extras(tmdb, seasons)
    } else {
        Seq::<SeriesExtraView>::empty()
    };
    let y = on_disk_extras(youtube, seasons);
    assert(series_extras_kept(mode, tmdb, youtube, seasons) == t + y);
    assert forall|k: int| 0 <= k < (t + y).len() implies !mentions_only_unavailable(
        mentioned_seasons((#[trigger] (t + y)[k]).title),
        seasons,
    ) by {
        if k < t.len() {
            assert((t + y)[k] == t[k]);
        } else {
            assert((t + y)[k] == y[k - t.len()]);
        }
    }
    if mode == SourceMode::YoutubeOnly {
        assert(t + y =~= y);
    }
}

proof fn lemma_on_disk_members(extras: Seq<SeriesExtraView>, seasons: Seq<u8>)
    ensures
        forall|k: int|
            0 <= k < on_disk_extras(extras, seasons).len() ==> !mentions_only_unavailable(
                mentioned_seasons((#[trigger] on_disk_extras(extras, seasons)[k]).title),
                seasons,
            ),
    decreases extras.len(),
{
    if extras.len() > 0 {
        lemma_on_disk_members(extras.drop_last(), seasons);
    }
}

/// The extras kept for one season: none when the season is not on disk
/// (it is not searched then); otherwise those whose titles do not point
/// only at seasons missing on disk, in order.
pub fn season_level_extras(season: u8, found: Vec<SeriesExtra>, seasons: &[u8]) -> (r: Vec<
    SeriesExtra,
>)
    ensures
        !seasons@.contains(season) ==> r@.len() == 0,
        seasons@.contains(season) ==> extra_views(r@) == on_disk_extras(
            extra_views(found@),
            seasons@,
        ),
{
    if !season_on_disk(seasons, season) {
        return Vec::new();
    }
    YoutubeSeriesDiscoverer::retain_available_seasons(found, seasons)
}

} // verus!
