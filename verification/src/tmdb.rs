//! TheMovieDB for movies: the request URLs, the category of a TMDB video
//! type, and the YouTube sources kept from a movie's videos.
use vstd::prelude::*;
use crate::models::{ContentCategory, SourceType, VideoSource, VideoSourceView, video_views};
use crate::text::{chars_of, decimal, equals_str, push_decimal, push_str, string_of};

verus! {

/// What `urlencoding::encode` gives for a text: every byte of its UTF-8
/// form percent-encoded except ASCII letters, digits and `- _ . ~`.
pub uninterp spec fn url_encoded(text: Seq<char>) -> Seq<char>;

/// Percent-encodes a query text with `urlencoding::encode`; the result is
/// named `url_encoded` of the text.
#[verifier::external_body]
pub(crate) fn encode_query(text: &str) -> (r: String)
    ensures
        r@ == url_encoded(text@),
{
    urlencoding::encode(text).into_owned()
}

/// A video of a TMDB videos answer.
#[derive(Debug, Clone)]
pub struct TmdbVideoInfo {
    /// Key of the video at its site
    pub key: String,
    /// Video name
    pub name: String,
    /// Hosting site (only YouTube videos are downloadable)
    pub site: String,
    /// TMDB video type (`Trailer`, `Featurette`, ...)
    pub video_type: String,
}

/// The category of a TMDB video type for movies; unknown types have none.
pub open spec fn movie_video_category(t: Seq<char>) -> Option<ContentCategory> {
    if t == "Trailer"@ || t == "Teaser"@ {
        Some(ContentCategory::Trailer)
    } else if t == "Behind the Scenes"@ {
        Some(ContentCategory::BehindTheScenes)
    } else if t == "Deleted Scene"@ {
        Some(ContentCategory::DeletedScene)
    } else if t == "Featurette"@ || t == "Bloopers"@ {
        Some(ContentCategory::Featurette)
    } else if t == "Interview"@ {
        Some(ContentCategory::Interview)
    } else if t == "Short"@ {
        Some(ContentCategory::Short)
    } else {
        None
    }
}

/// `https://www.youtube.com/watch?v={key}`.
pub open spec fn youtube_url(key: Seq<char>) -> Seq<char> {
    "https://www.youtube.com/watch?v="@ + key
}

/// The sources of a movie's TMDB videos: YouTube videos of a known type,
/// in order.
pub open spec fn tmdb_movie_sources(videos: Seq<TmdbVideoInfo>) -> Seq<VideoSourceView>
    decreases videos.len(),
{
    if videos.len() == 0 {
        seq![]
    } else {
        let prev = tmdb_movie_sources(videos.drop_last());
        let v = videos.last();
        if v.site@ == "YouTube"@ {
            match movie_video_category(v.video_type@) {
                Some(c) => prev.push(
                    VideoSourceView {
                        url: youtube_url(v.key@),
                        source_type: SourceType::TMDB,
                        category: c,
                        title: v.name@,
                        season_number: None,
                        duration_secs: None,
                    },
                ),
                None => prev,
            }
        } else {
            prev
        }
    }
}

/// TMDB content discoverer for movies.
pub struct TmdbDiscoverer {
    /// TMDB API key (never to be logged)
    pub api_key: String,
}

impl TmdbDiscoverer {
    /// A discoverer with the given API key.
    pub fn new(api_key: String) -> (r: Self)
        ensures
            r.api_key == api_key,
    {
        TmdbDiscoverer { api_key }
    }

    /// The movie search request:
    /// `https://api.themoviedb.org/3/search/movie?api_key={key}&query={title}&year={year}`
    /// with the title percent-encoded.
    pub fn search_url(&self, title: &str, year: u16) -> (r: String)
        ensures
            r@ == "https://api.themoviedb.org/3/search/movie?api_key="@ + self.api_key@
                + "&query="@ + url_encoded(title@) + "&year="@ + decimal(year as nat),
    {
        let q = encode_query(title);
        let mut v: Vec<char> = Vec::new();
        push_str(&mut v, "https://api.themoviedb.org/3/search/movie?api_key=");
        push_str(&mut v, self.api_key.as_str());
        push_str(&mut v, "&query=");
        push_str(&mut v, q.as_str());
        push_str(&mut v, "&year=");
        push_decimal(&mut v, year as u64);
        string_of(&v)
    }

    /// The request for a movie's videos:
    /// `https://api.themoviedb.org/3/movie/{id}/videos?api_key={key}`.
    pub fn videos_url(&self, movie_id: u64) -> (r: String)
        ensures
            r@ == "https://api.themoviedb.org/3/movie/"@ + decimal(movie_id as nat)
                + "/videos?api_key="@ + self.api_key@,
    {
        let mut v: Vec<char> = Vec::new();
        push_str(&mut v, "https://api.themoviedb.org/3/movie/");
        push_decimal(&mut v, movie_id);
        push_str(&mut v, "/videos?api_key=");
        push_str(&mut v, self.api_key.as_str());
        string_of(&v)
    }

    /// The category of a TMDB video type: trailers and teasers, behind the
    /// scenes, deleted scenes, featurettes and bloopers, interviews, shorts;
    /// none for other types.
    pub fn map_tmdb_type(tmdb_type: &str) -> (r: Option<ContentCategory>)
        ensures
            r == movie_video_category(tmdb_type@),
    {
        let t = chars_of(tmdb_type);
        if equals_str(&t, "Trailer") || equals_str(&t, "Teaser") {
            Some(ContentCategory::Trailer)
        } else if equals_str(&t, "Behind the Scenes") {
            Some(ContentCategory::BehindTheScenes)
        } else if equals_str(&t, "Deleted Scene") {
            Some(ContentCategory::DeletedScene)
        } else if equals_str(&t, "Featurette") || equals_str(&t, "Bloopers") {
            Some(ContentCategory::Featurette)
        } else if equals_str(&t, "Interview") {
            Some(ContentCategory::Interview)
        } else if equals_str(&t, "Short") {
            Some(ContentCategory::Short)
        } else {
            None
        }
    }

    /// The sources of a movie's TMDB videos: the YouTube videos of a known
    /// type, as YouTube watch URLs, in order.
    pub fn movie_sources(videos: &Vec<TmdbVideoInfo>) -> (r: Vec<VideoSource>)
        ensures
            video_views(r@) == tmdb_movie_sources(videos@),
    {
        let mut out: Vec<VideoSource> = Vec::new();
        let mut i: usize = 0;
        while i < videos.len()
            invariant
                i <= videos.len(),
                video_views(out@) == tmdb_movie_sources(videos@.take(i as int)),
            decreases videos.len() - i,
        {
            assert(videos@.take(i + 1).drop_last() =~= videos@.take(i as int));
            assert(videos@.take(i + 1).last() == videos@[i as int]);
            let v = &videos[i];
            let site = chars_of(v.site.as_str());
            if equals_str(&site, "YouTube") {
                match Self::map_tmdb_type(v.video_type.as_str()) {
                    Some(c) => {
                        let mut u: Vec<char> = Vec::new();
                        push_str(&mut u, "https://www.youtube.com/watch?v=");
                        push_str(&mut u, v.key.as_str());
                        let s = VideoSource {
                            url: string_of(&u),
                            source_type: SourceType::TMDB,
                            category: c,
                            title: v.name.clone(),
                            season_number: None,
                            duration_secs: None,
                        };
                        let ghost before = video_views(out@);
                        out.push(s);
                        assert(video_views(out@) =~= before.push(s@));
                    },
                    None => {},
                }
            }
            i = i + 1;
        }
        assert(videos@.take(videos.len() as int) =~= videos@);
        out
    }
}


/// The TMDB video types of a movie and their categories: Trailer and Teaser
/// are trailers, Behind the Scenes is behind the scenes, Deleted Scene a
/// deleted scene, Featurette and Bloopers featurettes, Interview an
/// interview, Short a short; every other type is dropped.
pub proof fn law_movie_video_types(t: Seq<char>)
    ensures
        (t == "Trailer"@ || t == "Teaser"@) ==> movie_video_category(t) == Some(ContentCategory::Trailer),
        t == "Behind the Scenes"@ ==> movie_video_category(t) == Some(ContentCategory::BehindTheScenes),
        t == "Deleted Scene"@ ==> movie_video_category(t) == Some(ContentCategory::DeletedScene),
        (t == "Featurette"@ || t == "Bloopers"@) ==> movie_video_category(t) == Some(
            ContentCategory::Featurette,
        ),
        t == "Interview"@ ==> movie_video_category(t) == Some(ContentCategory::Interview),
        t == "Short"@ ==> movie_video_category(t) == Some(ContentCategory::Short),
        movie_video_category(t) is Some ==> (t == "Trailer"@ || t == "Teaser"@ || t
            == "Behind the Scenes"@ || t == "Deleted Scene"@ || t == "Featurette"@ || t == "Bloopers"@
            || t == "Interview"@ || t == "Short"@),
{
    reveal_strlit("Trailer");
    assert("Trailer"@.len() == 7);
    reveal_strlit("Teaser");
    assert("Teaser"@.len() == 6);
    reveal_strlit("Behind the Scenes");
    assert("Behind the Scenes"@.len() == 17);
    reveal_strlit("Deleted Scene");
    assert("Deleted Scene"@.len() == 13);
    reveal_strlit("Featurette");
    assert("Featurette"@.len() == 10);
    reveal_strlit("Bloopers");
    assert("Bloopers"@.len() == 8);
    reveal_strlit("Interview");
    assert("Interview"@.len() == 9);
    reveal_strlit("Short");
    assert("Short"@.len() == 5);
}

} // verus!
