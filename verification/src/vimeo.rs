//! Vimeo discovery: the search and its paging, the authorization header,
//! and the sources kept from the videos found.
use vstd::prelude::*;
use crate::api_step::{ApiStep, api_step, step_for};
use crate::models::{ContentCategory, SourceType, VideoSource, VideoSourceView, video_views};
use crate::patterns::group1_captures;
use crate::text::{contains_seq, decimal, push_decimal, push_str, string_of};
use crate::title_matching::{
    contains_excluded_keywords, contains_movie_title, has_excluded_keyword, has_other_year,
    infer_category_from_title, inferred_category, mentions_different_year, mentions_sequel,
    mentions_sequel_number, normalize_title_text, year_pattern,
};
use crate::tmdb::{encode_query, url_encoded};

verus! {

/// Pages asked at most.
pub const MAX_PAGES: u32 = 3;

/// Videos per page.
pub const PER_PAGE: u32 = 10;

/// A video of a Vimeo search answer.
#[derive(Debug, Clone)]
pub struct VimeoVideo {
    pub uri: String,
    pub name: String,
    pub duration: u32,
    pub link: String,
}

/// The source kept for a video: its name contains the movie's title
/// (normalized) and mentions no sequel number and, when the year is known,
/// no other year; it is 30 seconds to 40 minutes long and free of excluded
/// keywords; filed under the category its name names, else as extras.
pub open spec fn vimeo_source_of(v: VimeoVideo, movie_title: Seq<char>, year: u16) -> Option<
    VideoSourceView,
> {
    if contains_seq(normalize_title_text(v.name@), normalize_title_text(movie_title))
        && !mentions_sequel(v.name@, movie_title) && !(year > 0 && has_other_year(
        group1_captures(year_pattern(), v.name@),
        year,
    )) && 30 <= v.duration <= 2400 && !has_excluded_keyword(v.name@) {
        Some(
            VideoSourceView {
                url: v.link@,
                source_type: SourceType::Vimeo,
                category: match inferred_category(v.name@) {
                    Some(c) => c,
                    None => ContentCategory::Extras,
                },
                title: v.name@,
                season_number: None,
                duration_secs: Some(v.duration),
            },
        )
    } else {
        None
    }
}

/// The sources kept from a page of videos, in order.
pub open spec fn vimeo_sources(videos: Seq<VimeoVideo>, movie_title: Seq<char>, year: u16) -> Seq<
    VideoSourceView,
>
    decreases videos.len(),
{
    if videos.len() == 0 {
        seq![]
    } else {
        let prev = vimeo_sources(videos.drop_last(), movie_title, year);
        match vimeo_source_of(videos.last(), movie_title, year) {
            Some(s) => prev.push(s),
            None => prev,
        }
    }
}

/// Vimeo content discoverer.
pub struct VimeoDiscoverer {
    /// Personal access token (never to be logged)
    pub access_token: String,
}

impl VimeoDiscoverer {
    /// A discoverer with the given access token.
    pub fn new(access_token: String) -> (r: Self)
        ensures
            r.access_token == access_token,
    {
        VimeoDiscoverer { access_token }
    }

    /// The search text: `{title} {year}`, or the title alone for year 0.
    pub fn build_search_query(title: &str, year: u16) -> (r: String)
        ensures
            r@ == (if year == 0 {
                title@
            } else {
                title@ + " "@ + decimal(year as nat)
            }),
    {
        let mut v: Vec<char> = Vec::new();
        push_str(&mut v, title);
        if year != 0 {
            push_str(&mut v, " ");
            push_decimal(&mut v, year as u64);
        }
        string_of(&v)
    }

    /// The request for a page of search results, ten per page, with uri,
    /// name, duration and link.
    pub fn build_url(query: &str, page: u32) -> (r: String)
        ensures
            r@ == "https://api.vimeo.com/videos?query="@ + url_encoded(query@)
                + "&fields=uri,name,duration,link&per_page="@ + decimal(PER_PAGE as nat)
                + "&page="@ + decimal(page as nat),
    {
        let q = encode_query(query);
        let mut v: Vec<char> = Vec::new();
        push_str(&mut v, "https://api.vimeo.com/videos?query=");
        push_str(&mut v, q.as_str());
        push_str(&mut v, "&fields=uri,name,duration,link&per_page=");
        push_decimal(&mut v, PER_PAGE as u64);
        push_str(&mut v, "&page=");
        push_decimal(&mut v, page as u64);
        string_of(&v)
    }

    /// The `Authorization` header value: `bearer {token}`.
    pub fn authorization(&self) -> (r: String)
        ensures
            r@ == "bearer "@ + self.access_token@,
    {
        let mut v: Vec<char> = Vec::new();
        push_str(&mut v, "bearer ");
        push_str(&mut v, self.access_token.as_str());
        string_of(&v)
    }

    /// What to do with an HTTP answer of the Vimeo API: one retry after a
    /// rate limit, an empty page when the retry fails, an error for other
    /// failures.
    pub fn step_for_status(status: u16, is_retry: bool) -> (r: ApiStep)
        ensures
            r == api_step(status, is_retry, false),
    {
        step_for(status, is_retry, false)
    }

    /// The source for a video, if it qualifies for the movie.
    pub fn map_video_to_source(video: &VimeoVideo, movie_title: &str, year: u16) -> (r: Option<
        VideoSource,
    >)
        ensures
            match r {
                Some(s) => vimeo_source_of(*video, movie_title@, year) == Some(s@),
                None => vimeo_source_of(*video, movie_title@, year) is None,
            },
    {
        if !contains_movie_title(video.name.as_str(), movie_title) {
            return None;
        }
        if mentions_sequel_number(video.name.as_str(), movie_title) {
            return None;
        }
        if year > 0 && mentions_different_year(video.name.as_str(), year) {
            return None;
        }
        if !(30 <= video.duration && video.duration <= 2400) {
            return None;
        }
        if contains_excluded_keywords(video.name.as_str()) {
            return None;
        }
        let category = match infer_category_from_title(video.name.as_str()) {
            Some(c) => c,
            None => ContentCategory::Extras,
        };
        Some(
            VideoSource {
                url: video.link.clone(),
                source_type: SourceType::Vimeo,
                category,
                title: video.name.clone(),
                season_number: None,
                duration_secs: Some(video.duration),
            },
        )
    }

    /// The sources kept from a page of videos, in order.
    pub fn sources_from_page(videos: &Vec<VimeoVideo>, movie_title: &str, year: u16) -> (r: Vec<
        VideoSource,
    >)
        ensures
            video_views(r@) == vimeo_sources(videos@, movie_title@, year),
    {
        let mut out: Vec<VideoSource> = Vec::new();
        let mut i: usize = 0;
        while i < videos.len()
            invariant
                i <= videos.len(),
                video_views(out@) == vimeo_sources(videos@.take(i as int), movie_title@, year),
            decreases videos.len() - i,
        {
            assert(videos@.take(i + 1).drop_last() =~= videos@.take(i as int));
            assert(videos@.take(i + 1).last() == videos@[i as int]);
            match Self::map_video_to_source(&videos[i], movie_title, year) {
                Some(s) => {
                    let ghost before = video_views(out@);
                    out.push(s);
                    assert(video_views(out@) =~= before.push(s@));
                },
                None => {},
            }
            i = i + 1;
        }
        assert(videos@.take(videos.len() as int) =~= videos@);
        out
    }

    /// The page to ask next: none after the third page or when the answer
    /// links no next page.
    pub fn next_page(page: u32, has_next: bool) -> (r: Option<u32>)
        ensures
            r == if has_next && page < MAX_PAGES {
                Some((page + 1) as u32)
            } else {
                None
            },
    {
        if has_next && page < MAX_PAGES {
            Some(page + 1)
        } else {
            None
        }
    }
}

} // verus!
