//! TheMovieDB for series: the request URLs, the category of a TMDB video
//! type, and the series-level extras kept from a series' videos.
use vstd::prelude::*;
use crate::models::{ContentCategory, SeriesExtra, SeriesExtraView, SourceType, extra_views};
use crate::text::{chars_of, decimal, equals_str, push_decimal, push_str, string_of};
use crate::tmdb::{TmdbVideoInfo, encode_query, url_encoded, youtube_url};

verus! {

/// The category of a TMDB video type for series; unknown types have none.
pub open spec fn series_video_category(t: Seq<char>) -> Option<ContentCategory> {
    if t == "Trailer"@ || t == "Teaser"@ {
        Some(ContentCategory::Trailer)
    } else if t == "Behind the Scenes"@ {
        Some(ContentCategory::BehindTheScenes)
    } else if t == "Featurette"@ || t == "Bloopers"@ || t == "Clip"@ {
        Some(ContentCategory::Featurette)
    } else {
        None
    }
}

/// The series-level extras of a series' TMDB videos: YouTube videos of a
/// known type, in order, under the series' TMDB id.
pub open spec fn tmdb_series_extras(series_id: u64, videos: Seq<TmdbVideoInfo>) -> Seq<
    SeriesExtraView,
>
    decreases videos.len(),
{
    if videos.len() == 0 {
        seq![]
    } else {
        let prev = tmdb_series_extras(series_id, videos.drop_last());
        let v = videos.last();
        if v.site@ == "YouTube"@ {
            match series_video_category(v.video_type@) {
                Some(c) => prev.push(
                    SeriesExtraView {
                        series_id: decimal(series_id as nat),
                        season_number: None,
                        category: c,
                        title: v.name@,
                        url: youtube_url(v.key@),
                        source_type: SourceType::TMDB,
                        local_path: None,
                        duration_secs: None,
                    },
                ),
                None => prev,
            }
        } else {
            prev
        }
    }
}

/// TMDB content discoverer for TV series.
pub struct TmdbSeriesDiscoverer {
    /// TMDB API key (never to be logged)
    pub api_key: String,
}

impl TmdbSeriesDiscoverer {
    /// A discoverer with the given API key.
    pub fn new(api_key: String) -> (r: Self)
        ensures
            r.api_key == api_key,
    {
        TmdbSeriesDiscoverer { api_key }
    }

    /// The series search request, with the title percent-encoded and the
    /// first-air year when known.
    pub fn search_url(&self, title: &str, year: Option<u16>) -> (r: String)
        ensures
            r@ == "https://api.themoviedb.org/3/search/tv?api_key="@ + self.api_key@ + "&query="@
                + url_encoded(title@) + match year {
                Some(y) => "&first_air_date_year="@ + decimal(y as nat),
                None => seq![],
            },
    {
        let q = encode_query(title);
        let mut v: Vec<char> = Vec::new();
        push_str(&mut v, "https://api.themoviedb.org/3/search/tv?api_key=");
        push_str(&mut v, self.api_key.as_str());
        push_str(&mut v, "&query=");
        push_str(&mut v, q.as_str());
        let ghost base = v@;
        match year {
            Some(y) => {
                push_str(&mut v, "&first_air_date_year=");
                push_decimal(&mut v, y as u64);
            },
            None => {
                assert(base + seq![] =~= base);
            },
        }
        string_of(&v)
    }

    /// The request for a series' videos.
    pub fn videos_url(&self, series_id: u64) -> (r: String)
        ensures
            r@ == "https://api.themoviedb.org/3/tv/"@ + decimal(series_id as nat)
                + "/videos?api_key="@ + self.api_key@,
    {
        let mut v: Vec<char> = Vec::new();
        push_str(&mut v, "https://api.themoviedb.org/3/tv/");
        push_decimal(&mut v, series_id);
        push_str(&mut v, "/videos?api_key=");
        push_str(&mut v, self.api_key.as_str());
        string_of(&v)
    }

    /// The request for a series' Season 0.
    pub fn season_zero_url(&self, series_id: u64) -> (r: String)
        ensures
            r@ == "https://api.themoviedb.org/3/tv/"@ + decimal(series_id as nat)
                + "/season/0?api_key="@ + self.api_key@,
    {
        let mut v: Vec<char> = Vec::new();
        push_str(&mut v, "https://api.themoviedb.org/3/tv/");
        push_decimal(&mut v, series_id);
        push_str(&mut v, "/season/0?api_key=");
        push_str(&mut v, self.api_key.as_str());
        string_of(&v)
    }

    /// The category of a TMDB video type for series: trailers and teasers,
    /// behind the scenes, featurettes, bloopers and clips; none for others.
    pub fn map_tmdb_type(tmdb_type: &str) -> (r: Option<ContentCategory>)
        ensures
            r == series_video_category(tmdb_type@),
    {
        let t = chars_of(tmdb_type);
        if equals_str(&t, "Trailer") || equals_str(&t, "Teaser") {
            Some(ContentCategory::Trailer)
        } else if equals_str(&t, "Behind the Scenes") {
            Some(ContentCategory::BehindTheScenes)
        } else if equals_str(&t, "Featurette") || equals_str(&t, "Bloopers") || equals_str(
            &t,
            "Clip",
        ) {
            Some(ContentCategory::Featurette)
        } else {
            None
        }
    }

    /// The series-level extras of a series' TMDB videos, in order.
    pub fn series_extras(series_id: u64, videos: &Vec<TmdbVideoInfo>) -> (r: Vec<SeriesExtra>)
        ensures
            extra_views(r@) == tmdb_series_extras(series_id, videos@),
    {
        let mut out: Vec<SeriesExtra> = Vec::new();
        let mut i: usize = 0;
        while i < videos.len()
            invariant
                i <= videos.len(),
                extra_views(out@) == tmdb_series_extras(series_id, videos@.take(i as int)),
            decreases videos.len() - i,
        {
            assert(videos@.take(i + 1).drop_last() =~= videos@.take(i as int));
            assert(videos@.take(i + 1).last() == videos@[i as int]);
            let v = &videos[i];
            let site = chars_of(v.site.as_str());
            if equals_str(&site, "YouTube") {
                match Self::map_tmdb_type(v.video_type.as_str()) {
                    Some(c) => {
                        let mut u: Vec<char> = Vec::new();
                        push_str(&mut u, "https://www.youtube.com/watch?v=");
                        push_str(&mut u, v.key.as_str());
                        let mut id: Vec<char> = Vec::new();
                        push_decimal(&mut id, series_id);
                        let s = SeriesExtra {
                            series_id: string_of(&id),
                            season_number: None,
                            category: c,
                            title: v.name.clone(),
                            url: string_of(&u),
                            source_type: SourceType::TMDB,
                            local_path: None,
                            duration_secs: None,
                        };
                        let ghost before = extra_views(out@);
                        out.push(s);
                        assert(extra_views(out@) =~= before.push(s@));
                    },
                    None => {},
                }
            }
            i = i + 1;
        }
        assert(videos@.take(videos.len() as int) =~= videos@);
        out
    }
}


/// The TMDB video types of a series and their categories: Trailer and Teaser
/// are trailers, Behind the Scenes is behind the scenes, Featurette,
/// Bloopers and Clip featurettes; every other type is dropped.
pub proof fn law_series_video_types(t: Seq<char>)
    ensures
        (t == "Trailer"@ || t == "Teaser"@) ==> series_video_category(t) == Some(ContentCategory::Trailer),
        t == "Behind the Scenes"@ ==> series_video_category(t) == Some(ContentCategory::BehindTheScenes),
        (t == "Featurette"@ || t == "Bloopers"@ || t == "Clip"@) ==> series_video_category(t) == Some(
            ContentCategory::Featurette,
        ),
        series_video_category(t) is Some ==> (t == "Trailer"@ || t == "Teaser"@ || t
            == "Behind the Scenes"@ || t == "Featurette"@ || t == "Bloopers"@ || t == "Clip"@),
{
    reveal_strlit("Trailer");
    assert("Trailer"@.len() == 7);
    reveal_strlit("Teaser");
    assert("Teaser"@.len() == 6);
    reveal_strlit("Behind the Scenes");
    assert("Behind the Scenes"@.len() == 17);
    reveal_strlit("Featurette");
    assert("Featurette"@.len() == 10);
    reveal_strlit("Bloopers");
    assert("Bloopers"@.len() == 8);
    reveal_strlit("Clip");
    assert("Clip"@.len() == 4);
}

} // verus!
