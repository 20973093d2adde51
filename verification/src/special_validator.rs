//! Choosing the video for a Season 0 special among search results: a
//! movie-length special must be long enough, the title (with the series name
//! taken out) must resemble one of the episode's names, and the best score
//! wins.
use vstd::prelude::*;
use vstd::string::{StrSliceExecFns, StringExecFns};
use crate::fuzzy_matching::{FuzzyMatcher, normalize_text, title_similarity};
use crate::text::{chars_of, matches_at, occurs_at, push_str, string_of, trim_whitespace, trim_ws};
use crate::tvdb::{TvdbEpisodeExtended, name_variant_views};

verus! {

/// Shortest duration of a special that is a movie, in seconds.
pub const MOVIE_MIN_DURATION_SECS: u32 = 600;

/// Least title similarity (percent) a candidate needs.
pub const MIN_TITLE_SIMILARITY: u8 = 60;

/// A search result for a special.
#[derive(Debug, Clone)]
pub struct VideoCandidate {
    pub url: String,
    pub webpage_url: String,
    pub title: String,
    /// Duration in whole seconds
    pub duration_secs: u32,
}

/// The video chosen for a special.
#[derive(Debug, Clone)]
pub struct SelectedSpecial {
    pub url: String,
    pub video_title: String,
    pub duration: u32,
}

/// The URL of a candidate: its `url`, else its `webpage_url`.
pub open spec fn candidate_url(c: VideoCandidate) -> Seq<char> {
    if c.url@.len() > 0 {
        c.url@
    } else {
        c.webpage_url@
    }
}

/// `s` with the first occurrence of a non-empty `pat` at or after `i`
/// removed; unchanged when there is none.
pub open spec fn remove_first_from(s: Seq<char>, pat: Seq<char>, i: int) -> Seq<char>
    decreases s.len() - i,
{
    if pat.len() == 0 || i < 0 || i + pat.len() > s.len() {
        s
    } else if occurs_at(s, pat, i) {
        s.take(i) + s.skip(i + pat.len())
    } else {
        remove_first_from(s, pat, i + 1)
    }
}

/// `s` with the first occurrence of `pat` removed, as `replacen(pat, "", 1)`
/// does.
pub open spec fn remove_first(s: Seq<char>, pat: Seq<char>) -> Seq<char> {
    remove_first_from(s, pat, 0)
}

/// The best similarity of the text to any of the names (0 for no name).
pub open spec fn best_similarity(names: Seq<Seq<char>>, text: Seq<char>) -> nat
    decreases names.len(),
{
    if names.len() == 0 {
        0
    } else {
        let prev = best_similarity(names.drop_last(), text);
        let s = title_similarity(names.last(), text);
        if s > prev {
            s
        } else {
            prev
        }
    }
}

/// The text a candidate's title is compared by: its normalized form without
/// the normalized series name and surrounding whitespace, or the title as it
/// is when nothing is left.
pub open spec fn compare_text(title: Seq<char>, normalized_series: Seq<char>) -> Seq<char> {
    let stripped = trim_ws(remove_first(normalize_text(title), normalized_series));
    if stripped.len() == 0 {
        title
    } else {
        stripped
    }
}

/// A candidate's score for an episode: none when a movie special is too
/// short or the best title similarity is below 60; otherwise ten times the
/// similarity, plus for a movie one point per minute up to thirty.
pub open spec fn candidate_score(
    c: VideoCandidate,
    e: TvdbEpisodeExtended,
    normalized_series: Seq<char>,
) -> Option<nat> {
    let movie = e.is_movie == Some(true);
    if movie && c.duration_secs < 600 {
        None
    } else {
        let sim = best_similarity(name_variant_views(e), compare_text(c.title@, normalized_series));
        if sim < 60 {
            None
        } else {
            let minutes = (c.duration_secs / 60) as nat;
            Some(
                sim * 10 + if movie {
                    if minutes > 30 {
                        30nat
                    } else {
                        minutes
                    }
                } else {
                    0nat
                },
            )
        }
    }
}

/// The position of the first candidate with the highest score, if any
/// scores.
pub open spec fn best_candidate(
    cs: Seq<VideoCandidate>,
    e: TvdbEpisodeExtended,
    normalized_series: Seq<char>,
) -> Option<int>
    decreases cs.len(),
{
    if cs.len() == 0 {
        None
    } else {
        let prev = best_candidate(cs.drop_last(), e, normalized_series);
        let k = cs.len() - 1;
        match candidate_score(cs.last(), e, normalized_series) {
            Some(s) => match prev {
                Some(b) => if s > candidate_score(cs[b], e, normalized_series).unwrap() {
                    Some(k)
                } else {
                    Some(b)
                },
                None => Some(k),
            },
            None => prev,
        }
    }
}

impl VideoCandidate {
    /// The candidate's URL: `url`, or `webpage_url` when `url` is empty.
    pub fn get_url(&self) -> (r: String)
        ensures
            r@ == candidate_url(*self),
    {
        if self.url.unicode_len() > 0 {
            self.url.clone()
        } else {
            self.webpage_url.clone()
        }
    }
}

/// Chooses the video for a special among search results.
pub struct SpecialValidator;

fn remove_first_chars(s: &Vec<char>, pat: &Vec<char>) -> (r: Vec<char>)
    ensures
        r@ == remove_first(s@, pat@),
{
    if pat.len() == 0 {
        return s.clone();
    }
    let mut i: usize = 0;
    while i <= s.len() && pat.len() <= s.len() - i
        invariant
            pat@.len() > 0,
            remove_first_from(s@, pat@, i as int) == remove_first(s@, pat@),
        decreases s.len() + 1 - i,
    {
        if matches_at(s, pat, i) {
            let mut out: Vec<char> = Vec::new();
            let mut k: usize = 0;
            while k < i
                invariant
                    k <= i <= s.len(),
                    out@ == s@.take(k as int),
                decreases i - k,
            {
                out.push(s[k]);
                k = k + 1;
                assert(out@ =~= s@.take(k as int));
            }
            let mut j: usize = i + pat.len();
            let ghost head = out@;
            assert(s@.skip((i + pat.len()) as int).take(0) =~= Seq::<char>::empty());
            while j < s.len()
                invariant
                    i + pat.len() <= j <= s.len(),
                    head == s@.take(i as int),
                    out@ == head + s@.skip((i + pat.len()) as int).take(j - i - pat.len()),
                decreases s.len() - j,
            {
                out.push(s[j]);
                j = j + 1;
                assert(out@ =~= head + s@.skip((i + pat.len()) as int).take(j - i - pat.len()));
            }
            assert(s@.skip((i + pat.len()) as int).take(s.len() - i - pat.len()) =~= s@.skip(
                (i + pat.len()) as int,
            ));
            return out;
        }
        i = i + 1;
    }
    s.clone()
}

impl SpecialValidator {
    /// The text a candidate's title is compared by.
    pub fn compare_title(candidate_title: &str, normalized_series: &str) -> (r: String)
        ensures
            r@ == compare_text(candidate_title@, normalized_series@),
    {
        let n = FuzzyMatcher::normalize(candidate_title);
        let nc = chars_of(n.as_str());
        let sc = chars_of(normalized_series);
        let removed = remove_first_chars(&nc, &sc);
        let stripped = trim_whitespace(&removed);
        if stripped.len() == 0 {
            string_of(&chars_of(candidate_title))
        } else {
            string_of(&stripped)
        }
    }

    /// The best similarity of a text to any of an episode's names.
    pub fn best_name_similarity(episode: &TvdbEpisodeExtended, text: &str) -> (r: u8)
        ensures
            r == best_similarity(name_variant_views(*episode), text@),
    {
        let names = episode.name_variants();
        let ghost nv = name_variant_views(*episode);
        let mut best: u8 = 0;
        let mut i: usize = 0;
        assert(nv.take(0) =~= Seq::<Seq<char>>::empty());
        while i < names.len()
            invariant
                i <= names.len(),
                names@.len() == nv.len(),
                forall|k: int| 0 <= k < names@.len() ==> #[trigger] names@[k]@ == nv[k],
                best == best_similarity(nv.take(i as int), text@),
            decreases names.len() - i,
        {
            assert(nv.take(i + 1).drop_last() =~= nv.take(i as int));
            let s = FuzzyMatcher::get_similarity_score(names[i], text);
            if s > best {
                best = s;
            }
            i = i + 1;
        }
        assert(nv.take(names.len() as int) =~= nv);
        best
    }

    /// A candidate's score for an episode, given the normalized series name.
    pub fn candidate_score(
        candidate: &VideoCandidate,
        episode: &TvdbEpisodeExtended,
        normalized_series: &str,
    ) -> (r: Option<u32>)
        ensures
            match r {
                Some(s) => candidate_score(*candidate, *episode, normalized_series@) == Some(
                    s as nat,
                ),
                None => candidate_score(*candidate, *episode, normalized_series@) is None,
            },
    {
        let movie = episode.is_movie == Some(true);
        if movie && candidate.duration_secs < MOVIE_MIN_DURATION_SECS {
            return None;
        }
        let basis = Self::compare_title(candidate.title.as_str(), normalized_series);
        let sim = Self::best_name_similarity(episode, basis.as_str());
        if sim < MIN_TITLE_SIMILARITY {
            return None;
        }
        let mut score: u32 = sim as u32 * 10;
        if movie {
            let minutes = candidate.duration_secs / 60;
            score = score + if minutes > 30 {
                30
            } else {
                minutes
            };
        }
        Some(score)
    }

    /// The video for a special among search results: the first candidate
    /// with the highest score, if any qualifies.
    pub fn pick_best(
        candidates: &[VideoCandidate],
        episode: &TvdbEpisodeExtended,
        series_title: &str,
    ) -> (r: Option<SelectedSpecial>)
        ensures
            match best_candidate(candidates@, *episode, normalize_text(series_title@)) {
                Some(b) => r matches Some(s) && s.url@ == candidate_url(candidates@[b])
                    && s.video_title@ == candidates@[b].title@ && s.duration
                    == candidates@[b].duration_secs,
                None => r is None,
            },
    {
        let ns = FuzzyMatcher::normalize(series_title);
        let ghost nsv = normalize_text(series_title@);
        let mut best: Option<usize> = None;
        let mut best_score: u32 = 0;
        let mut i: usize = 0;
        while i < candidates.len()
            invariant
                i <= candidates.len(),
                ns@ == nsv,
                best_candidate(candidates@.take(i as int), *episode, nsv) == match best {
                    Some(b) => Some(b as int),
                    None => None::<int>,
                },
                match best {
                    Some(b) => b < i && candidate_score(candidates@[b as int], *episode, nsv) == Some(
                        best_score as nat,
                    ),
                    None => true,
                },
            decreases candidates.len() - i,
        {
            assert(candidates@.take(i + 1).drop_last() =~= candidates@.take(i as int));
            assert(candidates@.take(i + 1).last() == candidates@[i as int]);
            proof {
                match best {
                    Some(b) => {
                        assert(candidates@.take(i + 1)[b as int] == candidates@[b as int]);
                    },
                    None => {},
                }
            }
            match Self::candidate_score(&candidates[i], episode, ns.as_str()) {
                Some(s) => {
                    match best {
                        Some(_) => {
                            if s > best_score {
                                best = Some(i);
                                best_score = s;
                            }
                        },
                        None => {
                            best = Some(i);
                            best_score = s;
                        },
                    }
                },
                None => {},
            }
            i = i + 1;
        }
        assert(candidates@.take(candidates.len() as int) =~= candidates@);
        match best {
            Some(b) => {
                let c = &candidates[b];
                Some(
                    SelectedSpecial {
                        url: c.get_url(),
                        video_title: c.title.clone(),
                        duration: c.duration_secs,
                    },
                )
            },
            None => None,
        }
    }

    /// Whether a search result can be a candidate at all: it has a URL.
    pub fn has_url(candidate: &VideoCandidate) -> (r: bool)
        ensures
            r == (candidate_url(*candidate).len() > 0),
    {
        let u = candidate.get_url();
        u.unicode_len() > 0
    }

    /// The `yt-dlp` arguments that list five search results for a query as
    /// JSON lines, without downloading.
    pub fn search_args(query: &str) -> (r: Vec<String>)
        ensures
            r.deep_view() == seq![
                "--dump-json"@,
                "--flat-playlist"@,
                "--no-download"@,
                "--no-warnings"@,
                "--quiet"@,
                "--js-runtimes"@,
                "node"@,
                "ytsearch5:"@ + query@,
            ],
    {
        let mut args: Vec<String> = Vec::new();
        args.push(String::from_str("--dump-json"));
        args.push(String::from_str("--flat-playlist"));
        args.push(String::from_str("--no-download"));
        args.push(String::from_str("--no-warnings"));
        args.push(String::from_str("--quiet"));
        args.push(String::from_str("--js-runtimes"));
        args.push(String::from_str("node"));
        let mut q: Vec<char> = Vec::new();
        push_str(&mut q, "ytsearch5:");
        push_str(&mut q, query);
        args.push(string_of(&q));
        assert(args.deep_view() =~= seq![
            "--dump-json"@,
            "--flat-playlist"@,
            "--no-download"@,
            "--no-warnings"@,
            "--quiet"@,
            "--js-runtimes"@,
            "node"@,
            "ytsearch5:"@ + query@,
        ]);
        args
    }

    /// The search results that have a URL, in order.
    pub fn with_url(candidates: Vec<VideoCandidate>) -> (r: Vec<VideoCandidate>)
        ensures
            r@ == candidates@.filter(|c: VideoCandidate| candidate_url(c).len() > 0),
    {
        let ghost keep = |c: VideoCandidate| candidate_url(c).len() > 0;
        let ghost all = candidates@;
        let n = candidates.len();
        let mut out: Vec<VideoCandidate> = Vec::new();
        let mut rest = candidates;
        let mut i: usize = 0;
        assert(all.take(0) =~= Seq::<VideoCandidate>::empty());
        assert(all.take(0).filter(keep) =~= Seq::<VideoCandidate>::empty()) by {
            reveal(Seq::filter);
        }
        assert(all.skip(0) =~= all);
        while i < n
            invariant
                i <= n,
                n == all.len(),
                rest@ == all.skip(i as int),
                keep == (|c: VideoCandidate| candidate_url(c).len() > 0),
                out@ == all.take(i as int).filter(keep),
            decreases n - i,
        {
            let c = rest.remove(0);
            assert(c == all[i as int]);
            assert(rest@ =~= all.skip(i + 1));
            assert(all.take(i + 1).drop_last() =~= all.take(i as int));
            assert(all.take(i + 1).last() == c);
            let ghost before = out@;
            let ghost t = all.take(i + 1);
            proof {
                reveal(Seq::filter);
            }
            assert(t.filter(keep) == (if keep(t.last()) {
                t.drop_last().filter(keep).push(t.last())
            } else {
                t.drop_last().filter(keep)
            }));
            assert(t.last() == c);
            if Self::has_url(&c) {
                out.push(c);
                assert(out@ =~= before.push(c));
                assert(out@ == t.filter(keep));
            } else {
                assert(out@ == t.filter(keep));
            }
            i = i + 1;
        }
        assert(all.take(n as int) =~= all);
        out
    }
}

/// The candidate chosen for a special is the best one: there is a choice
/// exactly when some candidate scores; the chosen one scores, no candidate
/// scores higher, no earlier one scores as high, and a movie special's
/// choice lasts at least ten minutes.
pub proof fn law_best_candidate_is_highest(
    cs: Seq<VideoCandidate>,
    e: TvdbEpisodeExtended,
    normalized_series: Seq<char>,
)
    ensures
        best_candidate(cs, e, normalized_series) is None <==> forall|i: int|
            0 <= i < cs.len() ==> candidate_score(#[trigger] cs[i], e, normalized_series) is None,
        best_candidate(cs, e, normalized_series) matches Some(b) ==> {
            &&& 0 <= b < cs.len()
            &&& candidate_score(cs[b], e, normalized_series) is Some
            &&& (e.is_movie == Some(true) ==> cs[b].duration_secs >= 600)
            &&& forall|i: int|
                0 <= i < cs.len() && candidate_score(#[trigger] cs[i], e, normalized_series) is Some
                    ==> candidate_score(cs[i], e, normalized_series).unwrap() <= candidate_score(
                    cs[b],
                    e,
                    normalized_series,
                ).unwrap()
            &&& forall|j: int|
                0 <= j < b && candidate_score(#[trigger] cs[j], e, normalized_series) is Some
                    ==> candidate_score(cs[j], e, normalized_series).unwrap() < candidate_score(
                    cs[b],
                    e,
                    normalized_series,
                ).unwrap()
        },
    decreases cs.len(),
{
    if cs.len() > 0 {
        let prev = cs.drop_last();
        law_best_candidate_is_highest(prev, e, normalized_series);
        let n = cs.len() - 1;
        assert(cs[n] == cs.last());
        assert forall|i: int| 0 <= i < prev.len() implies prev[i] == cs[i] by {}
    }
}

} // verus!
