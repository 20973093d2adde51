//! Search queries for Season 0 specials, and the character-overlap filter
//! applied to the titles that a search returns.
use vstd::prelude::*;
use crate::text::{is_ascii_text, 
    chars_of, decimal, decimal_padded, has_char, lowercase, push_chars, push_decimal,
    push_decimal_padded, push_str, str_lowercase, string_of,
};
use crate::tvdb::TvdbEpisodeExtended;

verus! {

/// `{title} S00E{number:02} {name}`.
pub open spec fn standard_query(title: Seq<char>, e: TvdbEpisodeExtended) -> Seq<char> {
    title + " S00E"@ + decimal_padded(e.number as nat, 2) + " "@ + e.name@
}

/// `{title} {name}`.
pub open spec fn fallback_query(title: Seq<char>, e: TvdbEpisodeExtended) -> Seq<char> {
    title + " "@ + e.name@
}

/// `{title} {name} movie`.
pub open spec fn movie_query(title: Seq<char>, e: TvdbEpisodeExtended) -> Seq<char> {
    title + " "@ + e.name@ + " movie"@
}

/// `{title} OVA {absolute_number}`.
pub open spec fn anime_query(title: Seq<char>, n: u32) -> Seq<char> {
    title + " OVA "@ + decimal(n as nat)
}

/// The queries to try, in order: the standard and fallback queries always, the
/// movie query when the special is flagged as a movie, the anime query when it
/// has an absolute number.
pub open spec fn special_queries(title: Seq<char>, e: TvdbEpisodeExtended) -> Seq<Seq<char>> {
    let base = seq![standard_query(title, e), fallback_query(title, e)];
    let with_movie = if e.is_movie == Some(true) {
        base.push(movie_query(title, e))
    } else {
        base
    };
    match e.absolute_number {
        Some(n) => with_movie.push(anime_query(title, n)),
        None => with_movie,
    }
}

/// The set of characters of the lowercased text.
pub open spec fn lower_char_set(s: Seq<char>) -> Set<char> {
    str_lowercase(s).to_set()
}

/// Number of distinct lowercased characters that the two texts share.
pub open spec fn common_char_count(a: Seq<char>, b: Seq<char>) -> nat {
    lower_char_set(a).intersect(lower_char_set(b)).len()
}

/// Number of distinct lowercased characters in either text.
pub open spec fn total_char_count(a: Seq<char>, b: Seq<char>) -> nat {
    lower_char_set(a).union(lower_char_set(b)).len()
}

/// The shared characters make up at least 60% of all characters (3/5 of a
/// non-empty union).
pub open spec fn include_result(a: Seq<char>, b: Seq<char>) -> bool {
    total_char_count(a, b) > 0 && 5 * common_char_count(a, b) >= 3 * total_char_count(a, b)
}

/// Constructs search queries for special episodes.
pub struct SpecialSearcher;

fn text_of(v: Vec<char>) -> (s: String)
    ensures
        s@ == v@,
{
    string_of(&v)
}

/// The distinct characters of `v`, in order of first occurrence.
fn distinct_chars(v: &Vec<char>) -> (d: Vec<char>)
    ensures
        d@.no_duplicates(),
        d@.to_set() == v@.to_set(),
{
    let mut d: Vec<char> = Vec::new();
    let mut i: usize = 0;
    assert(v@.take(0).to_set() =~= Set::<char>::empty());
    assert(d@.to_set() =~= Set::<char>::empty());
    while i < v.len()
        invariant
            i <= v.len(),
            d@.no_duplicates(),
            d@.to_set() == v@.take(i as int).to_set(),
        decreases v.len() - i,
    {
        let c = v[i];
        let ghost before = d@;
        if !has_char(&d, c) {
            d.push(c);
            proof {
                before.lemma_push_to_set_commute(c);
                assert forall|a: int, b: int| 0 <= a < b < d@.len() implies d@[a] != d@[b] by {
                    if b == d@.len() - 1 {
                        assert(before.contains(before[a]));
                    }
                }
            }
        } else {
            assert(d@.to_set().insert(c) =~= d@.to_set());
        }
        proof {
            assert(v@.take(i + 1) =~= v@.take(i as int).push(c));
            v@.take(i as int).lemma_push_to_set_commute(c);
        }
        i = i + 1;
    }
    assert(v@.take(v.len() as int) =~= v@);
    d
}

impl SpecialSearcher {
    /// Builds the search queries for a monitored special, in the order to try
    /// them: `{title} S00E{number:02} {name}`, `{title} {name}`, then
    /// `{title} {name} movie` when the special is a movie, then
    /// `{title} OVA {absolute_number}` when it has an absolute number.
    pub fn build_queries(series_title: &str, episode: &TvdbEpisodeExtended) -> (r: Vec<String>)
        ensures
            r.deep_view() == special_queries(series_title@, *episode),
    {
        let mut queries: Vec<String> = Vec::new();
        let ghost title = series_title@;

        let mut standard: Vec<char> = Vec::new();
        push_str(&mut standard, series_title);
        push_str(&mut standard, " S00E");
        push_decimal_padded(&mut standard, episode.number as u64, 2);
        push_str(&mut standard, " ");
        push_str(&mut standard, episode.name.as_str());
        assert(standard@ == standard_query(title, *episode));
        queries.push(text_of(standard));

        let mut fallback: Vec<char> = Vec::new();
        push_str(&mut fallback, series_title);
        push_str(&mut fallback, " ");
        push_str(&mut fallback, episode.name.as_str());
        assert(fallback@ == fallback_query(title, *episode));
        queries.push(text_of(fallback));

        if episode.is_movie == Some(true) {
            let mut movie: Vec<char> = Vec::new();
            push_str(&mut movie, series_title);
            push_str(&mut movie, " ");
            push_str(&mut movie, episode.name.as_str());
            push_str(&mut movie, " movie");
            assert(movie@ == movie_query(title, *episode));
            queries.push(text_of(movie));
        }
        match episode.absolute_number {
            Some(n) => {
                let mut anime: Vec<char> = Vec::new();
                push_str(&mut anime, series_title);
                push_str(&mut anime, " OVA ");
                push_decimal(&mut anime, n as u64);
                assert(anime@ == anime_query(title, n));
                queries.push(text_of(anime));
            },
            None => {},
        }
        assert(queries.deep_view() =~= special_queries(title, *episode));
        queries
    }

    /// The character-overlap counts of two titles: the number of distinct
    /// lowercased characters they share, and the number in either of them.
    /// Their ratio is the similarity that `should_include_result` tests.
    pub fn similarity_counts(s1: &str, s2: &str) -> (r: (usize, usize))
        ensures
            r.0 == common_char_count(s1@, s2@),
            r.1 == total_char_count(s1@, s2@),
            is_ascii_text(s1@) ==> str_lowercase(s1@).len() == s1@.len(),
    {
        let l1 = lowercase(s1);
        let l2 = lowercase(s2);
        let c1 = chars_of(l1.as_str());
        let c2 = chars_of(l2.as_str());
        let d1 = distinct_chars(&c1);
        let d2 = distinct_chars(&c2);
        let ghost a = lower_char_set(s1@);
        let ghost b = lower_char_set(s2@);

        // Shared characters, in the order of the first title.
        let mut common: Vec<char> = Vec::new();
        let mut i: usize = 0;
        assert(d1@.take(0).to_set() =~= Set::<char>::empty());
        assert(common@.to_set() =~= Set::<char>::empty().intersect(b));
        while i < d1.len()
            invariant
                i <= d1.len(),
                d1@.no_duplicates(),
                d2@.to_set() == b,
                common@.no_duplicates(),
                common@.to_set() == d1@.take(i as int).to_set().intersect(b),
            decreases d1.len() - i,
        {
            let c = d1[i];
            let ghost before = common@;
            proof {
                assert(d1@.take(i + 1) =~= d1@.take(i as int).push(c));
                d1@.take(i as int).lemma_push_to_set_commute(c);
                assert(!d1@.take(i as int).contains(c)) by {
                    if d1@.take(i as int).contains(c) {
                        let k = choose|k: int| 0 <= k < i && d1@.take(i as int)[k] == c;
                        assert(d1@[k] == d1@[i as int]);
                    }
                }
            }
            if has_char(&d2, c) {
                common.push(c);
                proof {
                    before.lemma_push_to_set_commute(c);
                    assert(!before.contains(c)) by {
                        if before.contains(c) {
                            assert(before.to_set().contains(c));
                        }
                    }
                    assert forall|x: int, y: int| 0 <= x < y < common@.len() implies common@[x]
                        != common@[y] by {
                        if y == common@.len() - 1 {
                            assert(before.contains(before[x]));
                        }
                    }
                    assert(common@.to_set() =~= d1@.take(i + 1).to_set().intersect(b));
                }
            } else {
                proof {
                    assert(!b.contains(c)) by {
                        if b.contains(c) {
                            assert(d2@.to_set().contains(c));
                        }
                    }
                    assert(common@.to_set() =~= d1@.take(i + 1).to_set().intersect(b));
                }
            }
            i = i + 1;
        }
        assert(d1@.take(d1.len() as int) =~= d1@);

        // All characters: those of the first title, then the others of the second.
        let mut all: Vec<char> = Vec::new();
        push_chars(&mut all, &d1);
        let mut j: usize = 0;
        assert(d2@.take(0).to_set() =~= Set::<char>::empty());
        assert(all@.to_set() =~= a.union(d2@.take(0).to_set()));
        while j < d2.len()
            invariant
                j <= d2.len(),
                d2@.no_duplicates(),
                d1@.to_set() == a,
                all@.no_duplicates(),
                all@.to_set() == a.union(d2@.take(j as int).to_set()),
            decreases d2.len() - j,
        {
            let c = d2[j];
            let ghost before = all@;
            proof {
                assert(d2@.take(j + 1) =~= d2@.take(j as int).push(c));
                d2@.take(j as int).lemma_push_to_set_commute(c);
            }
            if !has_char(&all, c) {
                all.push(c);
                proof {
                    before.lemma_push_to_set_commute(c);
                    assert forall|x: int, y: int| 0 <= x < y < all@.len() implies all@[x]
                        != all@[y] by {
                        if y == all@.len() - 1 {
                            assert(before.contains(before[x]));
                        }
                    }
                    assert(all@.to_set() =~= a.union(d2@.take(j + 1).to_set()));
                }
            } else {
                proof {
                    assert(before.to_set().contains(c));
                    assert(all@.to_set() =~= a.union(d2@.take(j + 1).to_set()));
                }
            }
            j = j + 1;
        }
        assert(d2@.take(d2.len() as int) =~= d2@);
        proof {
            assert(d1@.to_set() == a);
            common@.unique_seq_to_set();
            all@.unique_seq_to_set();
            assert(common@.to_set() =~= a.intersect(b));
            assert(all@.to_set() =~= a.union(b));
        }
        (common.len(), all.len())
    }

    /// Whether a search result's title is close enough to the expected
    /// episode title: the distinct lowercased characters that the two share
    /// make up at least 60% of the distinct characters of either.
    pub fn should_include_result(result_title: &str, expected_title: &str) -> (r: bool)
        ensures
            r == include_result(result_title@, expected_title@),
            result_title@ == expected_title@ && result_title@.len() > 0 && is_ascii_text(
                result_title@,
            ) ==> r,
    {
        let (common, total) = Self::similarity_counts(result_title, expected_title);
        proof {
            if result_title@ == expected_title@ && result_title@.len() > 0 && is_ascii_text(
                result_title@,
            ) {
                law_identical_title_included(result_title@);
            }
        }
        if total == 0 {
            return false;
        }
        (common as u128) * 5 >= (total as u128) * 3
    }
}

/// The overlap filter does not depend on the order of the two titles.
pub proof fn law_include_symmetric(a: Seq<char>, b: Seq<char>)
    ensures
        include_result(a, b) == include_result(b, a),
        common_char_count(a, b) == common_char_count(b, a),
        total_char_count(a, b) == total_char_count(b, a),
{
    assert(lower_char_set(a).intersect(lower_char_set(b)) =~= lower_char_set(b).intersect(
        lower_char_set(a),
    ));
    assert(lower_char_set(a).union(lower_char_set(b)) =~= lower_char_set(b).union(
        lower_char_set(a),
    ));
}

/// A title whose lowercase form is not empty always passes the filter
/// against itself.
pub proof fn law_identical_title_included(a: Seq<char>)
    requires
        str_lowercase(a).len() > 0,
    ensures
        include_result(a, a),
{
    let s = lower_char_set(a);
    assert(s.intersect(s) =~= s);
    assert(s.union(s) =~= s);
    str_lowercase(a).lemma_cardinality_of_empty_set_is_0();
}

/// The shared characters are never more than all characters: the
/// similarity that the filter tests lies between 0 and 1.
pub proof fn law_similarity_bounded(a: Seq<char>, b: Seq<char>)
    ensures
        common_char_count(a, b) <= total_char_count(a, b),
{
    let sa = lower_char_set(a);
    let sb = lower_char_set(b);
    vstd::seq_lib::seq_to_set_is_finite(str_lowercase(a));
    vstd::seq_lib::seq_to_set_is_finite(str_lowercase(b));
    assert(sa.union(sb).finite());
    vstd::set_lib::lemma_len_subset(sa.intersect(sb), sa.union(sb));
}

} // verus!
