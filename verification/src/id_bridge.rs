//! Finding a series' TheTVDB id from its TMDB id: the cache file, the two
//! requests, and the choice among TheTVDB search results.
use vstd::prelude::*;
use crate::fuzzy_matching::{FuzzyMatcher, title_similarity};
use crate::text::{chars_of, decimal, parse_unsigned, parse_unsigned_chars, push_decimal, push_str, string_of};
use crate::tmdb::{encode_query, url_encoded};

verus! {

/// A TheTVDB search result: its name and id, each when present as text.
#[derive(Debug, Clone)]
pub struct TvdbSearchHit {
    pub name: Option<String>,
    pub tvdb_id: Option<String>,
}

/// The best match among the first results: the id and score of the first
/// result with the highest score of at least 80 whose id parses.
pub open spec fn best_hit(title: Seq<char>, hits: Seq<TvdbSearchHit>) -> Option<(u64, nat)>
    decreases hits.len(),
{
    if hits.len() == 0 {
        None
    } else {
        let prev = best_hit(title, hits.drop_last());
        let h = hits.last();
        match h.name {
            Some(name) => {
                let score = title_similarity(title, name@);
                let better = score >= 80 && match prev {
                    Some(p) => score > p.1,
                    None => true,
                };
                if better {
                    match h.tvdb_id {
                        Some(t) => match parse_unsigned(t@, 0xffff_ffff_ffff_ffff) {
                            Some(id) => Some((id as u64, score)),
                            None => prev,
                        },
                        None => prev,
                    }
                } else {
                    prev
                }
            },
            None => prev,
        }
    }
}

/// Resolves TMDB series ids to TheTVDB ids.
pub struct IdBridge {
    /// TMDB API key (never to be logged)
    pub tmdb_api_key: String,
}

impl IdBridge {
    /// A bridge with the TMDB API key.
    pub fn new(tmdb_api_key: String) -> (r: Self)
        ensures
            r.tmdb_api_key == tmdb_api_key,
    {
        IdBridge { tmdb_api_key }
    }

    /// The cache file of a mapping: `{tmdb_id}.json`.
    pub fn cache_file_name(tmdb_id: u64) -> (r: String)
        ensures
            r@ == decimal(tmdb_id as nat) + ".json"@,
    {
        let mut v: Vec<char> = Vec::new();
        push_decimal(&mut v, tmdb_id);
        push_str(&mut v, ".json");
        string_of(&v)
    }

    /// The request for a series' external ids at TMDB.
    pub fn external_ids_url(&self, tmdb_id: u64) -> (r: String)
        ensures
            r@ == "https://api.themoviedb.org/3/tv/"@ + decimal(tmdb_id as nat)
                + "/external_ids?api_key="@ + self.tmdb_api_key@,
    {
        let mut v: Vec<char> = Vec::new();
        push_str(&mut v, "https://api.themoviedb.org/3/tv/");
        push_decimal(&mut v, tmdb_id);
        push_str(&mut v, "/external_ids?api_key=");
        push_str(&mut v, self.tmdb_api_key.as_str());
        string_of(&v)
    }

    /// The TheTVDB search request for a series title.
    pub fn tvdb_search_url(series_title: &str) -> (r: String)
        ensures
            r@ == "https://api4.thetvdb.com/v4/search?q="@ + url_encoded(series_title@),
    {
        let q = encode_query(series_title);
        let mut v: Vec<char> = Vec::new();
        push_str(&mut v, "https://api4.thetvdb.com/v4/search?q=");
        push_str(&mut v, q.as_str());
        string_of(&v)
    }

    /// The TheTVDB id of the best search result: among results whose name
    /// is at least 80% similar to the title, the first with the highest
    /// similarity whose id is a number.
    pub fn best_search_match(series_title: &str, hits: &Vec<TvdbSearchHit>) -> (r: Option<u64>)
        ensures
            r == match best_hit(series_title@, hits@) {
                Some(b) => Some(b.0),
                None => None::<u64>,
            },
    {
        let mut best: Option<(u64, u8)> = None;
        let mut i: usize = 0;
        while i < hits.len()
            invariant
                i <= hits.len(),
                best_hit(series_title@, hits@.take(i as int)) == match best {
                    Some(b) => Some((b.0, b.1 as nat)),
                    None => None::<(u64, nat)>,
                },
            decreases hits.len() - i,
        {
            assert(hits@.take(i + 1).drop_last() =~= hits@.take(i as int));
            assert(hits@.take(i + 1).last() == hits@[i as int]);
            let h = &hits[i];
            match &h.name {
                Some(name) => {
                    let score = FuzzyMatcher::get_similarity_score(series_title, name.as_str());
                    let better = score >= 80 && match best {
                        Some(b) => score > b.1,
                        None => true,
                    };
                    if better {
                        match &h.tvdb_id {
                            Some(t) => {
                                let tc = chars_of(t.as_str());
                                match parse_unsigned_chars(&tc, 0xffff_ffff_ffff_ffff) {
                                    Some(id) => {
                                        best = Some((id, score));
                                    },
                                    None => {},
                                }
                            },
                            None => {},
                        }
                    }
                },
                None => {},
            }
            i = i + 1;
        }
        assert(hits@.take(hits.len() as int) =~= hits@);
        match best {
            Some(b) => Some(b.0),
            None => None,
        }
    }
}

/// A search result that can be chosen: its name is at least 80% similar to
/// the title and its id is a number.
pub open spec fn hit_qualifies(title: Seq<char>, h: TvdbSearchHit) -> bool {
    &&& h.name matches Some(n) && title_similarity(title, n@) >= 80
    &&& h.tvdb_id matches Some(t) && parse_unsigned(t@, 0xffff_ffff_ffff_ffff) is Some
}

/// The score of a result with a name.
pub open spec fn hit_score(title: Seq<char>, h: TvdbSearchHit) -> nat {
    match h.name {
        Some(n) => title_similarity(title, n@),
        None => 0,
    }
}

/// The choice among search results is the best one: there is a choice
/// exactly when some result qualifies, and the chosen result qualifies, has
/// the highest score of all that qualify, and no earlier result that
/// qualifies has that score.
pub proof fn law_best_hit_is_highest(title: Seq<char>, hits: Seq<TvdbSearchHit>)
    ensures
        best_hit(title, hits) is None <==> forall|i: int|
            0 <= i < hits.len() ==> !hit_qualifies(title, #[trigger] hits[i]),
        best_hit(title, hits) matches Some(b) ==> exists|k: int|
            #![trigger hits[k]]
            0 <= k < hits.len() && hit_qualifies(title, hits[k]) && hit_score(title, hits[k])
                == b.1 && parse_unsigned(hits[k].tvdb_id->0@, 0xffff_ffff_ffff_ffff) == Some(
                b.0 as nat,
            ) && forall|j: int| 0 <= j < k && hit_qualifies(title, #[trigger] hits[j])
                ==> hit_score(title, hits[j]) < b.1,
        best_hit(title, hits) matches Some(b) ==> forall|i: int|
            0 <= i < hits.len() && hit_qualifies(title, #[trigger] hits[i]) ==> hit_score(
                title,
                hits[i],
            ) <= b.1,
    decreases hits.len(),
{
    if hits.len() > 0 {
        let prev = hits.drop_last();
        law_best_hit_is_highest(title, prev);
        let h = hits.last();
        let n = hits.len() - 1;
        assert(hits[n] == h);
        assert forall|i: int| 0 <= i < prev.len() implies prev[i] == hits[i] by {}
        match best_hit(title, prev) {
            Some(p) => {
                let k = choose|k: int|
                    #![trigger prev[k]]
                    0 <= k < prev.len() && hit_qualifies(title, prev[k]) && hit_score(
                        title,
                        prev[k],
                    ) == p.1 && parse_unsigned(prev[k].tvdb_id->0@, 0xffff_ffff_ffff_ffff)
                        == Some(p.0 as nat) && forall|j: int|
                        0 <= j < k && hit_qualifies(title, #[trigger] prev[j]) ==> hit_score(
                            title,
                            prev[j],
                        ) < p.1;
                assert(hits[k] == prev[k]);
                assert forall|j: int| 0 <= j < k && hit_qualifies(title, #[trigger] hits[j]) implies hit_score(
                    title,
                    hits[j],
                ) < p.1 by {
                    assert(prev[j] == hits[j]);
                }
                if hit_qualifies(title, h) && hit_score(title, h) > p.1 {
                    assert forall|j: int| 0 <= j < n && hit_qualifies(title, #[trigger] hits[j]) implies hit_score(
                        title,
                        hits[j],
                    ) < hit_score(title, h) by {
                        assert(prev[j] == hits[j]);
                    }
                }
            },
            None => {
                assert forall|j: int| 0 <= j < n implies !hit_qualifies(title, #[trigger] hits[j]) by {
                    assert(prev[j] == hits[j]);
                }
            },
        }
    }
}

} // verus!
