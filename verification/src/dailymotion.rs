//! Dailymotion discovery: the search and its paging, and the sources kept
//! from the videos found.
use vstd::prelude::*;
use crate::models::{ContentCategory, SourceType, VideoSource, VideoSourceView, video_views};
use crate::text::{decimal, push_decimal, push_str, string_of};
use crate::title_matching::{contains_excluded_keywords, has_excluded_keyword, infer_category_from_title, inferred_category};
use crate::tmdb::{encode_query, url_encoded};

verus! {

/// Pages asked at most.
pub const MAX_PAGES: u32 = 3;

/// Videos per page.
pub const PAGE_LIMIT: u32 = 10;

/// A video of a Dailymotion search answer.
#[derive(Debug, Clone)]
pub struct DailymotionVideo {
    pub id: String,
    pub title: String,
    pub duration: u32,
    pub url: String,
}

/// `{title} {year}`, or the title alone when the year is 0.
pub open spec fn search_query_text(title: Seq<char>, year: u16) -> Seq<char> {
    if year == 0 {
        title
    } else {
        title + " "@ + decimal(year as nat)
    }
}

/// The source kept for a video: 30 seconds to 40 minutes long and free of
/// excluded keywords; filed under the category its title names, else as
/// extras.
pub open spec fn dailymotion_source_of(v: DailymotionVideo) -> Option<VideoSourceView> {
    if 30 <= v.duration <= 2400 && !has_excluded_keyword(v.title@) {
        Some(
            VideoSourceView {
                url: v.url@,
                source_type: SourceType::Dailymotion,
                category: match inferred_category(v.title@) {
                    Some(c) => c,
                    None => ContentCategory::Extras,
                },
                title: v.title@,
                season_number: None,
                duration_secs: Some(v.duration),
            },
        )
    } else {
        None
    }
}

/// The sources kept from a page of videos, in order.
pub open spec fn dailymotion_sources(videos: Seq<DailymotionVideo>) -> Seq<VideoSourceView>
    decreases videos.len(),
{
    if videos.len() == 0 {
        seq![]
    } else {
        let prev = dailymotion_sources(videos.drop_last());
        match dailymotion_source_of(videos.last()) {
            Some(s) => prev.push(s),
            None => prev,
        }
    }
}

/// Dailymotion content discoverer.
pub struct DailymotionDiscoverer;

impl DailymotionDiscoverer {
    /// The search text: `{title} {year}`, or the title alone for year 0.
    pub fn build_search_query(title: &str, year: u16) -> (r: String)
        ensures
            r@ == search_query_text(title@, year),
    {
        let mut v: Vec<char> = Vec::new();
        push_str(&mut v, title);
        if year != 0 {
            push_str(&mut v, " ");
            push_decimal(&mut v, year as u64);
        }
        string_of(&v)
    }

    /// The request for a page of search results, ten videos per page, with
    /// id, title, duration and URL.
    pub fn build_url(query: &str, page: u32) -> (r: String)
        ensures
            r@ == "https://api.dailymotion.com/videos?search="@ + url_encoded(query@)
                + "&fields=id,title,duration,url&limit="@ + decimal(PAGE_LIMIT as nat)
                + "&page="@ + decimal(page as nat),
    {
        let q = encode_query(query);
        let mut v: Vec<char> = Vec::new();
        push_str(&mut v, "https://api.dailymotion.com/videos?search=");
        push_str(&mut v, q.as_str());
        push_str(&mut v, "&fields=id,title,duration,url&limit=");
        push_decimal(&mut v, PAGE_LIMIT as u64);
        push_str(&mut v, "&page=");
        push_decimal(&mut v, page as u64);
        string_of(&v)
    }

    /// The source for a video, if its duration and title qualify.
    pub fn map_video_to_source(video: &DailymotionVideo) -> (r: Option<VideoSource>)
        ensures
            match r {
                Some(s) => dailymotion_source_of(*video) == Some(s@),
                None => dailymotion_source_of(*video) is None,
            },
    {
        if !(30 <= video.duration && video.duration <= 2400) {
            return None;
        }
        if contains_excluded_keywords(video.title.as_str()) {
            return None;
        }
        let category = match infer_category_from_title(video.title.as_str()) {
            Some(c) => c,
            None => ContentCategory::Extras,
        };
        Some(
            VideoSource {
                url: video.url.clone(),
                source_type: SourceType::Dailymotion,
                category,
                title: video.title.clone(),
                season_number: None,
                duration_secs: Some(video.duration),
            },
        )
    }

    /// The sources kept from a page of videos, in order.
    pub fn sources_from_page(videos: &Vec<DailymotionVideo>) -> (r: Vec<VideoSource>)
        ensures
            video_views(r@) == dailymotion_sources(videos@),
    {
        let mut out: Vec<VideoSource> = Vec::new();
        let mut i: usize = 0;
        while i < videos.len()
            invariant
                i <= videos.len(),
                video_views(out@) == dailymotion_sources(videos@.take(i as int)),
            decreases videos.len() - i,
        {
            assert(videos@.take(i + 1).drop_last() =~= videos@.take(i as int));
            assert(videos@.take(i + 1).last() == videos@[i as int]);
            match Self::map_video_to_source(&videos[i]) {
                Some(s) => {
                    let ghost before = video_views(out@);
                    out.push(s);
                    assert(video_views(out@) =~= before.push(s@));
                },
                None => {},
            }
            i = i + 1;
        }
        assert(videos@.take(videos.len() as int) =~= videos@);
        out
    }

    /// The page to ask next after a page that said whether more results
    /// follow: none after the third page or when no more follow.
    pub fn next_page(page: u32, has_more: bool) -> (r: Option<u32>)
        ensures
            r == if has_more && page < MAX_PAGES {
                Some((page + 1) as u32)
            } else {
                None
            },
    {
        if has_more && page < MAX_PAGES {
            Some(page + 1)
        } else {
            None
        }
    }
}

} // verus!
