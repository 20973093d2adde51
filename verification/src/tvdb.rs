//! TheTVDB records: episodes of Season 0 and the shapes of the API's
//! responses.
use vstd::prelude::*;
use vstd::string::StrSliceExecFns;
use crate::text::{decimal, push_decimal, push_str, string_of};

verus! {

/// Base episode data from the Season 0 listing.
#[derive(Debug, Clone)]
pub struct TvdbEpisode {
    /// TheTVDB episode ID
    pub id: u64,
    /// Episode number within the season
    pub number: u8,
    /// Episode title
    pub name: String,
    /// Air date (ISO 8601), when known
    pub aired: Option<String>,
    /// Overview, when known
    pub overview: Option<String>,
}

/// Episode data from the extended endpoint.
#[derive(Debug, Clone)]
pub struct TvdbEpisodeExtended {
    /// TheTVDB episode ID
    pub id: u64,
    /// Episode number within the season
    pub number: u8,
    /// Episode title
    pub name: String,
    /// English translation of the title, when there is one
    pub name_eng: Option<String>,
    /// Air date (ISO 8601), when known
    pub aired: Option<String>,
    /// Overview, when known
    pub overview: Option<String>,
    /// Absolute episode number (anime), when known
    pub absolute_number: Option<u32>,
    /// Season this episode airs before, when known
    pub airs_before_season: Option<u8>,
    /// Season this episode airs after, when known
    pub airs_after_season: Option<u8>,
    /// Episode this episode airs before, when known
    pub airs_before_episode: Option<u8>,
    /// Whether this special is a movie
    pub is_movie: Option<bool>,
}

/// The title variants to search for: the title itself, then the English
/// translation when it differs from the title.
pub open spec fn name_variant_views(e: TvdbEpisodeExtended) -> Seq<Seq<char>> {
    match e.name_eng {
        Some(eng) => if eng@ != e.name@ {
            seq![e.name@, eng@]
        } else {
            seq![e.name@]
        },
        None => seq![e.name@],
    }
}

impl TvdbEpisodeExtended {
    /// All name variants to try in search queries: the primary name and the
    /// English translation when it differs.
    pub fn name_variants(&self) -> (r: Vec<&str>)
        ensures
            r@.len() == name_variant_views(*self).len(),
            forall|i: int| 0 <= i < r@.len() ==> #[trigger] r@[i]@ == name_variant_views(*self)[i],
    {
        let mut variants: Vec<&str> = Vec::new();
        variants.push(self.name.as_str());
        match &self.name_eng {
            Some(eng) => {
                if !eng.eq(&self.name) {
                    variants.push(eng.as_str());
                }
            },
            None => {},
        }
        variants
    }
}

/// A result of the series search.
#[derive(Debug, Clone)]
pub struct TvdbSearchResult {
    /// TheTVDB series ID
    pub tvdb_id: String,
    /// Series name
    pub name: String,
    /// Year of release, when known
    pub year: Option<String>,
}

/// Generic response wrapper.
#[derive(Debug)]
pub struct TvdbApiResponse<T> {
    /// Response status
    pub status: String,
    /// Response data
    pub data: T,
}

/// Episodes and the link to the next page.
#[derive(Debug)]
pub struct TvdbEpisodesData {
    /// Episodes of this page
    pub episodes: Vec<TvdbEpisode>,
    /// URL of the next page, when there is one
    pub next: Option<String>,
}

/// A page of episodes.
#[derive(Debug)]
pub struct TvdbEpisodesPage {
    /// Episodes and pagination
    pub data: TvdbEpisodesData,
    /// Response status
    pub status: String,
}

/// The token of a login.
#[derive(Debug)]
pub struct TvdbLoginData {
    /// Bearer token for authenticated requests
    pub token: String,
}

/// Login response.
#[derive(Debug)]
pub struct TvdbLoginResponse {
    /// Token data
    pub data: TvdbLoginData,
    /// Response status
    pub status: String,
}

/// Search response.
#[derive(Debug)]
pub struct TvdbSearchResponse {
    /// Search results
    pub data: Vec<TvdbSearchResult>,
}

/// A translation record.
#[derive(Debug)]
pub struct TvdbTranslation {
    /// Translated name
    pub name: String,
}

/// Translation response.
#[derive(Debug)]
pub struct TvdbTranslationResponse {
    /// Translation data
    pub data: TvdbTranslation,
    /// Response status
    pub status: String,
}

/// The requests of TheTVDB API and the decisions on its answers.
pub struct TvdbApi;

impl TvdbApi {
    /// The login request.
    pub fn login_url() -> (r: &'static str)
        ensures
            r@ == "https://api4.thetvdb.com/v4/login"@,
    {
        "https://api4.thetvdb.com/v4/login"
    }

    /// The `Authorization` header value for a token: `Bearer {token}`.
    pub fn bearer(token: &str) -> (r: String)
        ensures
            r@ == "Bearer "@ + token@,
    {
        let mut v: Vec<char> = Vec::new();
        push_str(&mut v, "Bearer ");
        push_str(&mut v, token);
        string_of(&v)
    }

    /// Whether an answer asks for a fresh login (401), after which the
    /// request is made once more.
    pub fn needs_new_login(status: u16) -> (r: bool)
        ensures
            r == (status == 401),
    {
        status == 401
    }

    /// The request for a page of Season 0: the link to the next page the
    /// previous answer gave, or the page of the series' default order.
    pub fn season_zero_page_url(tvdb_id: u64, page: u64, next: Option<String>) -> (r: String)
        ensures
            r@ == match next {
                Some(n) => n@,
                None => "https://api4.thetvdb.com/v4/series/"@ + decimal(tvdb_id as nat)
                    + "/episodes/default?season=0&page="@ + decimal(page as nat),
            },
    {
        match next {
            Some(n) => n,
            None => {
                let mut v: Vec<char> = Vec::new();
                push_str(&mut v, "https://api4.thetvdb.com/v4/series/");
                push_decimal(&mut v, tvdb_id);
                push_str(&mut v, "/episodes/default?season=0&page=");
                push_decimal(&mut v, page);
                string_of(&v)
            },
        }
    }

    /// Takes in a page of Season 0 episodes: its episodes are added after
    /// those read so far, and the page to read next is the one it links to
    /// (none: the last page was read).
    pub fn take_season_zero_page(episodes: &mut Vec<TvdbEpisode>, page: TvdbEpisodesData) -> (r:
        Option<String>)
        ensures
            final(episodes)@ == old(episodes)@ + page.episodes@,
            r == page.next,
    {
        let TvdbEpisodesData { episodes: found, next } = page;
        let mut found = found;
        episodes.append(&mut found);
        next
    }

    /// The request for an episode's extended record.
    pub fn episode_extended_url(episode_id: u64) -> (r: String)
        ensures
            r@ == "https://api4.thetvdb.com/v4/episodes/"@ + decimal(episode_id as nat)
                + "/extended"@,
    {
        let mut v: Vec<char> = Vec::new();
        push_str(&mut v, "https://api4.thetvdb.com/v4/episodes/");
        push_decimal(&mut v, episode_id);
        push_str(&mut v, "/extended");
        string_of(&v)
    }

    /// The request for an episode's English translation.
    pub fn translation_url(episode_id: u64) -> (r: String)
        ensures
            r@ == "https://api4.thetvdb.com/v4/episodes/"@ + decimal(episode_id as nat)
                + "/translations/eng"@,
    {
        let mut v: Vec<char> = Vec::new();
        push_str(&mut v, "https://api4.thetvdb.com/v4/episodes/");
        push_decimal(&mut v, episode_id);
        push_str(&mut v, "/translations/eng");
        string_of(&v)
    }

    /// The English name from a translation: none when it is empty.
    pub fn english_name(translation: TvdbTranslation) -> (r: Option<String>)
        ensures
            match r {
                Some(n) => n == translation.name && n@.len() > 0,
                None => translation.name@.len() == 0,
            },
    {
        if translation.name.unicode_len() == 0 {
            None
        } else {
            Some(translation.name)
        }
    }
}

} // verus!
