//! Fuzzy title matching: normalization, edit distance and a percentage
//! similarity score.
use vstd::prelude::*;
use crate::text::{
    char_is_alphanumeric, char_is_whitespace, chars_of, collapse_whitespace, collapse_ws, is_alphanumeric,
    is_whitespace, lowercase, str_lowercase, string_of,
};

verus! {

/// A character that normalization keeps: alphanumeric or whitespace.
pub open spec fn is_word_char(c: char) -> bool {
    char_is_alphanumeric(c) || char_is_whitespace(c)
}

/// The characters of `s` that normalization keeps, in order.
pub open spec fn keep_word_chars(s: Seq<char>) -> Seq<char>
    decreases s.len(),
{
    if s.len() == 0 {
        seq![]
    } else {
        let rest = keep_word_chars(s.drop_last());
        if is_word_char(s.last()) {
            rest.push(s.last())
        } else {
            rest
        }
    }
}

/// Normalized form of a title: lowercased, stripped of every character that
/// is neither alphanumeric nor whitespace, with words joined by single spaces.
pub open spec fn normalize_text(s: Seq<char>) -> Seq<char> {
    collapse_ws(keep_word_chars(str_lowercase(s)))
}

/// Keeps the alphanumeric and whitespace characters of `s`.
pub fn filter_word_chars(s: &Vec<char>) -> (r: Vec<char>)
    ensures
        r@ == keep_word_chars(s@),
{
    let mut out: Vec<char> = Vec::new();
    let mut i: usize = 0;
    assert(s@.take(0) =~= seq![]);
    while i < s.len()
        invariant
            i <= s.len(),
            out@ == keep_word_chars(s@.take(i as int)),
        decreases s.len() - i,
    {
        let c = s[i];
        assert(s@.take(i + 1).drop_last() =~= s@.take(i as int));
        assert(s@.take(i + 1).last() == c);
        if is_alphanumeric(c) || is_whitespace(c) {
            out.push(c);
        }
        i = i + 1;
    }
    assert(s@.take(s.len() as int) =~= s@);
    out
}

/// The normalized characters of a title (see `normalize_text`).
pub fn normalized_chars(text: &str) -> (r: Vec<char>)
    ensures
        r@ == normalize_text(text@),
{
    let lower = lowercase(text);
    let lower_chars = chars_of(lower.as_str());
    let kept = filter_word_chars(&lower_chars);
    collapse_whitespace(&kept)
}

pub open spec fn min2(x: nat, y: nat) -> nat {
    if x <= y {
        x
    } else {
        y
    }
}

pub open spec fn max2(x: nat, y: nat) -> nat {
    if x >= y {
        x
    } else {
        y
    }
}

/// Levenshtein edit distance: the least number of single-character
/// insertions, deletions and substitutions that turn `a` into `b`.
pub open spec fn lev(a: Seq<char>, b: Seq<char>) -> nat
    decreases a.len() + b.len(),
{
    if a.len() == 0 {
        b.len()
    } else if b.len() == 0 {
        a.len()
    } else {
        min2(
            min2(lev(a.drop_last(), b) + 1, lev(a, b.drop_last()) + 1),
            lev(a.drop_last(), b.drop_last()) + (if a.last() == b.last() {
                0nat
            } else {
                1nat
            }),
        )
    }
}

/// The percentage `100 * k / m` rounded to the nearest integer, halves away
/// from zero, computed as binary64 arithmetic computes
/// `((k as f64 / m as f64) * 100.0).round()`: the quotient `k / m` is rounded
/// to binary64 before it is scaled, which puts the four exact halves
/// 14.5, 28.5, 56.5 and 57.5 just below the half, so that they round down.
pub open spec fn percent_score(k: nat, m: nat) -> nat
    recommends
        m > 0,
{
    if 200 * k == 29 * m || 200 * k == 57 * m || 200 * k == 113 * m || 200 * k == 115 * m {
        (100 * k) / m
    } else {
        (200 * k + m) / (2 * m)
    }
}

/// Similarity of two character sequences in percent: 100 for two empty
/// sequences, else the share of the longer length that the edit distance
/// leaves unchanged.
pub open spec fn similarity(a: Seq<char>, b: Seq<char>) -> nat {
    let m = max2(a.len(), b.len());
    if m == 0 {
        100
    } else {
        percent_score((m - lev(a, b)) as nat, m)
    }
}

/// The similarity of two titles after normalization.
pub open spec fn title_similarity(t1: Seq<char>, t2: Seq<char>) -> nat {
    similarity(normalize_text(t1), normalize_text(t2))
}

pub proof fn lemma_lev_bounds(a: Seq<char>, b: Seq<char>)
    ensures
        lev(a, b) <= max2(a.len(), b.len()),
        a.len() >= b.len() ==> lev(a, b) >= a.len() - b.len(),
        b.len() >= a.len() ==> lev(a, b) >= b.len() - a.len(),
    decreases a.len() + b.len(),
{
    if a.len() > 0 && b.len() > 0 {
        lemma_lev_bounds(a.drop_last(), b);
        lemma_lev_bounds(a, b.drop_last());
        lemma_lev_bounds(a.drop_last(), b.drop_last());
    }
}

/// Calls to `lev` on prefixes unfold as the recurrence states.
proof fn lemma_lev_prefix_step(a: Seq<char>, b: Seq<char>, i: int, j: int)
    requires
        0 < i <= a.len(),
        0 < j <= b.len(),
    ensures
        lev(a.take(i), b.take(j)) == min2(
            min2(lev(a.take(i - 1), b.take(j)) + 1, lev(a.take(i), b.take(j - 1)) + 1),
            lev(a.take(i - 1), b.take(j - 1)) + (if a[i - 1] == b[j - 1] {
                0nat
            } else {
                1nat
            }),
        ),
{
    assert(a.take(i).drop_last() =~= a.take(i - 1));
    assert(b.take(j).drop_last() =~= b.take(j - 1));
}

pub struct FuzzyMatcher;

impl FuzzyMatcher {
    /// Normalize a string for comparison: lowercase it, drop every character
    /// that is neither alphanumeric nor whitespace, and join the words with
    /// single spaces.
    pub fn normalize(text: &str) -> (r: String)
        ensures
            r@ == normalize_text(text@),
    {
        let v = normalized_chars(text);
        string_of(&v)
    }

    /// Levenshtein distance between the character sequences of two strings.
    pub fn levenshtein_distance(s1: &str, s2: &str) -> (d: usize)
        ensures
            d == lev(s1@, s2@),
    {
        let a = chars_of(s1);
        let b = chars_of(s2);
        Self::levenshtein_chars(&a, &b)
    }

    /// Levenshtein distance between two character vectors.
    pub fn levenshtein_chars(a: &Vec<char>, b: &Vec<char>) -> (d: usize)
        ensures
            d == lev(a@, b@),
    {
        let len1 = a.len();
        let len2 = b.len();
        if len1 == 0 {
            return len2;
        }
        if len2 == 0 {
            return len1;
        }
        // row[j] holds lev(a.take(i), b.take(j + 1)) for the current i.
        let mut row: Vec<usize> = Vec::new();
        let mut j: usize = 0;
        while j < len2
            invariant
                j <= len2,
                len2 == b.len(),
                row@.len() == j,
                forall|k: int| 0 <= k < j ==> row@[k] == lev(a@.take(0), b@.take(k + 1)),
            decreases len2 - j,
        {
            proof {
                assert(a@.take(0).len() == 0);
            }
            row.push(j + 1);
            j = j + 1;
        }
        let mut i: usize = 0;
        while i < len1
            invariant
                i <= len1,
                len1 == a.len(),
                len2 == b.len(),
                len2 > 0,
                row@.len() == len2,
                forall|k: int| 0 <= k < len2 ==> row@[k] == lev(a@.take(i as int), b@.take(k + 1)),
            decreases len1 - i,
        {
            let ai = a[i];
            // diag = lev(a.take(i), b.take(j)), left = lev(a.take(i + 1), b.take(j))
            let mut diag: usize = i;
            let mut left: usize = i + 1;
            proof {
                assert(b@.take(0).len() == 0);
                assert(a@.take(i as int).len() == i);
                assert(a@.take(i + 1).len() == i + 1);
            }
            let mut j: usize = 0;
            while j < len2
                invariant
                    i < len1,
                    len1 == a.len(),
                    len2 == b.len(),
                    j <= len2,
                    row@.len() == len2,
                    ai == a@[i as int],
                    forall|k: int| 0 <= k < j ==> row@[k] == lev(a@.take(i + 1), b@.take(k + 1)),
                    forall|k: int| j <= k < len2 ==> row@[k] == lev(a@.take(i as int), b@.take(k + 1)),
                    diag == lev(a@.take(i as int), b@.take(j as int)),
                    left == lev(a@.take(i + 1), b@.take(j as int)),
                decreases len2 - j,
            {
                let up = row[j];
                let cost: u128 = if ai == b[j] {
                    0
                } else {
                    1
                };
                proof {
                    lemma_lev_prefix_step(a@, b@, i + 1, j + 1);
                    lemma_lev_bounds(a@.take(i + 1), b@.take(j + 1));
                }
                let c1: u128 = up as u128 + 1;
                let c2: u128 = left as u128 + 1;
                let c3: u128 = diag as u128 + cost;
                let m12 = if c1 <= c2 {
                    c1
                } else {
                    c2
                };
                let m = if m12 <= c3 {
                    m12
                } else {
                    c3
                };
                let v = m as usize;
                row.set(j, v);
                diag = up;
                left = v;
                j = j + 1;
            }
            i = i + 1;
        }
        proof {
            assert(a@.take(len1 as int) =~= a@);
            assert(b@.take(len2 as int) =~= b@);
        }
        row[len2 - 1]
    }

    /// Similarity in percent (0 to 100) of the character sequences of two
    /// strings; see `similarity`.
    pub fn similarity_score(s1: &str, s2: &str) -> (r: u8)
        ensures
            r == similarity(s1@, s2@),
    {
        let a = chars_of(s1);
        let b = chars_of(s2);
        Self::similarity_chars(&a, &b)
    }

    /// Similarity in percent of two character vectors.
    pub fn similarity_chars(a: &Vec<char>, b: &Vec<char>) -> (r: u8)
        ensures
            r == similarity(a@, b@),
            r <= 100,
    {
        let m = if a.len() >= b.len() {
            a.len()
        } else {
            b.len()
        };
        if m == 0 {
            return 100;
        }
        let d = Self::levenshtein_chars(a, b);
        proof {
            lemma_lev_bounds(a@, b@);
        }
        let k: u128 = (m - d) as u128;
        let mm: u128 = m as u128;
        let r: u128 = if 200 * k == 29 * mm || 200 * k == 57 * mm || 200 * k == 113 * mm || 200 * k
            == 115 * mm {
            (100 * k) / mm
        } else {
            (200 * k + mm) / (2 * mm)
        };
        proof {
            lemma_percent_at_most_100(k as nat, mm as nat);
        }
        r as u8
    }

    /// Whether two titles match: similarity of the normalized titles of at
    /// least 80 percent.
    pub fn titles_match(title1: &str, title2: &str) -> (r: bool)
        ensures
            r == (title_similarity(title1@, title2@) >= 80),
    {
        let score = Self::get_similarity_score(title1, title2);
        score >= 80
    }

    /// Similarity in percent of two titles after normalization.
    pub fn get_similarity_score(title1: &str, title2: &str) -> (r: u8)
        ensures
            r == title_similarity(title1@, title2@),
            r <= 100,
    {
        let n1 = normalized_chars(title1);
        let n2 = normalized_chars(title2);
        Self::similarity_chars(&n1, &n2)
    }
}

proof fn lemma_percent_at_most_100(k: nat, m: nat)
    requires
        m > 0,
        k <= m,
    ensures
        percent_score(k, m) <= 100,
{
    assert(100 * k <= 100 * m) by (nonlinear_arith)
        requires
            k <= m,
    ;
    assert((100 * k) / m <= 100) by (nonlinear_arith)
        requires
            100 * k <= 100 * m,
            m > 0,
    ;
    assert((200 * k + m) / (2 * m) <= 100) by (nonlinear_arith)
        requires
            k <= m,
            m > 0,
    ;
}

// ---------------------------------------------------------------------------
// Laws.
// ---------------------------------------------------------------------------

/// The edit distance is symmetric.
pub proof fn lemma_lev_symmetric(a: Seq<char>, b: Seq<char>)
    ensures
        lev(a, b) == lev(b, a),
    decreases a.len() + b.len(),
{
    if a.len() > 0 && b.len() > 0 {
        lemma_lev_symmetric(a.drop_last(), b);
        lemma_lev_symmetric(a, b.drop_last());
        lemma_lev_symmetric(a.drop_last(), b.drop_last());
    }
}

/// A sequence is at edit distance 0 from itself.
pub proof fn lemma_lev_self(a: Seq<char>)
    ensures
        lev(a, a) == 0,
    decreases a.len(),
{
    if a.len() > 0 {
        lemma_lev_self(a.drop_last());
    }
}

/// Two sequences are at edit distance 0 exactly when they are equal.
pub proof fn law_lev_zero_iff_equal(a: Seq<char>, b: Seq<char>)
    ensures
        (lev(a, b) == 0) == (a == b),
    decreases a.len() + b.len(),
{
    if a == b {
        lemma_lev_self(a);
    } else if a.len() > 0 && b.len() > 0 {
        law_lev_zero_iff_equal(a.drop_last(), b.drop_last());
        if lev(a, b) == 0 {
            assert(lev(a.drop_last(), b.drop_last()) == 0 && a.last() == b.last());
            assert(a =~= a.drop_last().push(a.last()));
            assert(b =~= b.drop_last().push(b.last()));
        }
    } else if a.len() == 0 {
        assert(b.len() > 0) by {
            if b.len() == 0 {
                assert(a =~= b);
            }
        }
    } else {
        assert(a.len() > 0);
    }
}

/// The similarity score is symmetric in its two arguments.
pub proof fn law_similarity_symmetric(a: Seq<char>, b: Seq<char>)
    ensures
        similarity(a, b) == similarity(b, a),
        title_similarity(a, b) == title_similarity(b, a),
{
    lemma_lev_symmetric(a, b);
    lemma_lev_symmetric(normalize_text(a), normalize_text(b));
}

/// Identical inputs score 100 and therefore match.
pub proof fn law_identical_titles_match(t: Seq<char>)
    ensures
        similarity(t, t) == 100,
        title_similarity(t, t) == 100,
        title_similarity(t, t) >= 80,
{
    lemma_lev_self(t);
    lemma_lev_self(normalize_text(t));
    let m = t.len();
    if m > 0 {
        assert((200 * m + m) / (2 * m) == 100) by (nonlinear_arith)
            requires
                m > 0,
        ;
    }
    let n = normalize_text(t).len();
    if n > 0 {
        assert((200 * n + n) / (2 * n) == 100) by (nonlinear_arith)
            requires
                n > 0,
        ;
    }
}

/// The score never exceeds 100.
pub proof fn law_similarity_at_most_100(a: Seq<char>, b: Seq<char>)
    ensures
        similarity(a, b) <= 100,
{
    lemma_lev_bounds(a, b);
    let m = max2(a.len(), b.len());
    if m > 0 {
        lemma_percent_at_most_100((m - lev(a, b)) as nat, m);
    }
}


proof fn lemma_floor_bounds(x: int, d: int)
    requires
        d > 0,
        x >= 0,
    ensures
        (x / d) * d <= x < (x / d) * d + d,
{
    assert((x / d) * d <= x < (x / d) * d + d) by (nonlinear_arith)
        requires
            d > 0,
            x >= 0,
    ;
}

proof fn lemma_exact_half(k: int, m: int, c: int)
    requires
        m > 0,
        k >= 0,
        200 * k == c * m,
        c == 29 || c == 57 || c == 113 || c == 115,
    ensures
        2 * m * ((100 * k) / m) == 200 * k - m,
{
    let p = (100 * k) / m;
    lemma_floor_bounds(100 * k, m);
    assert(p * m <= 100 * k < p * m + m);
    assert(2 * p * m <= c * m && c * m < 2 * p * m + 2 * m) by (nonlinear_arith)
        requires
            p * m <= 100 * k < p * m + m,
            200 * k == c * m,
    ;
    assert(2 * p <= c) by (nonlinear_arith)
        requires
            2 * p * m <= c * m,
            m > 0,
    ;
    assert(c < 2 * p + 2) by (nonlinear_arith)
        requires
            c * m < 2 * p * m + 2 * m,
            m > 0,
    ;
    assert(2 * p == c - 1);
    assert(2 * m * p == c * m - m) by (nonlinear_arith)
        requires
            2 * p == c - 1,
    ;
}

/// The percentage is within one half of `100 * k / m`.
proof fn lemma_percent_near(k: nat, m: nat)
    requires
        m > 0,
    ensures
        -(m as int) <= 2 * m * percent_score(k, m) - 200 * k <= m,
{
    if 200 * k == 29 * m {
        lemma_exact_half(k as int, m as int, 29);
    } else if 200 * k == 57 * m {
        lemma_exact_half(k as int, m as int, 57);
    } else if 200 * k == 113 * m {
        lemma_exact_half(k as int, m as int, 113);
    } else if 200 * k == 115 * m {
        lemma_exact_half(k as int, m as int, 115);
    } else {
        let x = 200 * k + m;
        let q = x / (2 * m);
        lemma_floor_bounds(x as int, 2 * m as int);
        assert(percent_score(k, m) == q);
        assert(q * (2 * m) == 2 * m * q) by (nonlinear_arith);
    }
}

/// The similarity score is the share `100 * (m - d) / m` of the longer
/// length `m` that the edit distance `d` leaves unchanged, rounded to within
/// one half; 100 when both texts are empty.
pub proof fn law_similarity_rounds_to_nearest(a: Seq<char>, b: Seq<char>)
    ensures
        max2(a.len(), b.len()) == 0 ==> similarity(a, b) == 100,
        max2(a.len(), b.len()) > 0 ==> -(max2(a.len(), b.len()) as int) <= 2 * max2(
            a.len(),
            b.len(),
        ) * similarity(a, b) - 200 * (max2(a.len(), b.len()) - lev(a, b)) <= max2(
            a.len(),
            b.len(),
        ),
{
    lemma_lev_bounds(a, b);
    let m = max2(a.len(), b.len());
    if m > 0 {
        lemma_percent_near((m - lev(a, b)) as nat, m);
    }
}

} // verus!
