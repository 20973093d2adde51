//! Title matching and filtering of video search results: normalization,
//! keyword checks, category inference, season and sequel detection.
use vstd::prelude::*;
use crate::fuzzy_matching::{normalize_text, normalized_chars};
use crate::models::ContentCategory;
use crate::patterns::{captures_group1, group1_captures};
use crate::text::{equals_str, 
    char_is_alphabetic, chars_of, contains, contains_seq, contains_str, decimal, ends_with,
    ends_with_seq, is_alphabetic, lowercase, parse_unsigned, parse_unsigned_chars, push_chars,
    push_decimal, push_str, replace_seq, replace_str, split_ws, split_whitespace, str_lowercase,
    str_uppercase, string_of, take_chars, uppercase,
};

verus! {

// ---------------------------------------------------------------------------
// Normalization of titles.
// ---------------------------------------------------------------------------

/// Superscript digits two to five are written as a space and the digit.
pub open spec fn superscript_expansion(c: char) -> Seq<char> {
    if c == '\u{00B2}' {
        " 2"@
    } else if c == '\u{00B3}' {
        " 3"@
    } else if c == '\u{2074}' {
        " 4"@
    } else if c == '\u{2075}' {
        " 5"@
    } else {
        seq![c]
    }
}

pub open spec fn expand_superscripts(s: Seq<char>) -> Seq<char>
    decreases s.len(),
{
    if s.len() == 0 {
        seq![]
    } else {
        expand_superscripts(s.drop_last()) + superscript_expansion(s.last())
    }
}

/// Standalone Roman numerals II to V between spaces become digits.
pub open spec fn roman_between_spaces(s: Seq<char>) -> Seq<char> {
    replace_seq(
        replace_seq(
            replace_seq(replace_seq(s, " II "@, " 2 "@), " III "@, " 3 "@),
            " IV "@,
            " 4 "@,
        ),
        " V "@,
        " 5 "@,
    )
}

/// A trailing Roman numeral II to V after a space becomes a digit.
pub open spec fn roman_at_end(s: Seq<char>) -> Seq<char> {
    if ends_with_seq(s, " II"@) {
        s.take(s.len() - 3) + " 2"@
    } else if ends_with_seq(s, " III"@) {
        s.take(s.len() - 4) + " 3"@
    } else if ends_with_seq(s, " IV"@) {
        s.take(s.len() - 3) + " 4"@
    } else if ends_with_seq(s, " V"@) {
        s.take(s.len() - 2) + " 5"@
    } else {
        s
    }
}

/// Normalized title: superscript and Roman sequel numbers written as digits,
/// then lowercased, stripped of characters that are neither alphanumeric nor
/// whitespace, and joined with single spaces.
pub open spec fn normalize_title_text(t: Seq<char>) -> Seq<char> {
    normalize_text(roman_at_end(roman_between_spaces(expand_superscripts(t))))
}

fn expand_superscript_chars(s: &Vec<char>) -> (r: Vec<char>)
    ensures
        r@ == expand_superscripts(s@),
{
    let mut out: Vec<char> = Vec::new();
    let mut i: usize = 0;
    assert(s@.take(0) =~= seq![]);
    while i < s.len()
        invariant
            i <= s.len(),
            out@ == expand_superscripts(s@.take(i as int)),
        decreases s.len() - i,
    {
        let c = s[i];
        assert(s@.take(i + 1).drop_last() =~= s@.take(i as int));
        assert(s@.take(i + 1).last() == c);
        if c == '\u{00B2}' {
            push_str(&mut out, " 2");
        } else if c == '\u{00B3}' {
            push_str(&mut out, " 3");
        } else if c == '\u{2074}' {
            push_str(&mut out, " 4");
        } else if c == '\u{2075}' {
            push_str(&mut out, " 5");
        } else {
            out.push(c);
            assert(out@ =~= expand_superscripts(s@.take(i as int)) + seq![c]);
        }
        i = i + 1;
    }
    assert(s@.take(s.len() as int) =~= s@);
    out
}

fn replace_trailing(s: &Vec<char>, cut: usize, rep: &str) -> (r: Vec<char>)
    requires
        cut <= s.len(),
    ensures
        r@ == s@.take(s.len() - cut) + rep@,
{
    let mut v = take_chars(s, s.len() - cut);
    push_str(&mut v, rep);
    v
}

/// The characters of the normalized title (see `normalize_title_text`).
pub fn normalize_title_chars(title: &str) -> (r: Vec<char>)
    ensures
        r@ == normalize_title_text(title@),
{
    let t = chars_of(title);
    let t = expand_superscript_chars(&t);
    proof {
        reveal_strlit(" II ");
        reveal_strlit(" III ");
        reveal_strlit(" IV ");
        reveal_strlit(" V ");
        reveal_strlit(" II");
        reveal_strlit(" III");
        reveal_strlit(" IV");
        reveal_strlit(" V");
    }
    let t = replace_str(&t, " II ", " 2 ");
    let t = replace_str(&t, " III ", " 3 ");
    let t = replace_str(&t, " IV ", " 4 ");
    let t = replace_str(&t, " V ", " 5 ");
    let t = if ends_with(&t, " II") {
        replace_trailing(&t, 3, " 2")
    } else if ends_with(&t, " III") {
        replace_trailing(&t, 4, " 3")
    } else if ends_with(&t, " IV") {
        replace_trailing(&t, 3, " 4")
    } else if ends_with(&t, " V") {
        replace_trailing(&t, 2, " 5")
    } else {
        t
    };
    let s = string_of(&t);
    normalized_chars(s.as_str())
}

/// Normalize a title for comparison: superscript and Roman numerals II to V
/// become digits, then the title is lowercased, stripped of special
/// characters and its words are joined with single spaces.
pub fn normalize_title(title: &str) -> (r: String)
    ensures
        r@ == normalize_title_text(title@),
{
    let v = normalize_title_chars(title);
    string_of(&v)
}

/// Whether the normalized video title contains the normalized movie title.
pub fn contains_movie_title(video_title: &str, movie_title: &str) -> (r: bool)
    ensures
        r == contains_seq(normalize_title_text(video_title@), normalize_title_text(movie_title@)),
{
    let v = normalize_title_chars(video_title);
    let m = normalize_title_chars(movie_title);
    contains(&v, &m)
}

// ---------------------------------------------------------------------------
// Keywords and categories.
// ---------------------------------------------------------------------------

/// The title, lowercased, contains one of the excluded keywords: review,
/// reaction, analysis, explained, ending, theory, react, blooper, gag.
pub open spec fn has_excluded_keyword(title: Seq<char>) -> bool {
    let l = str_lowercase(title);
    contains_seq(l, "review"@) || contains_seq(l, "reaction"@) || contains_seq(l, "analysis"@)
        || contains_seq(l, "explained"@) || contains_seq(l, "ending"@) || contains_seq(
        l,
        "theory"@,
    ) || contains_seq(l, "react"@) || contains_seq(l, "blooper"@) || contains_seq(l, "gag"@)
}

/// Whether the title contains an excluded keyword, ignoring case.
pub fn contains_excluded_keywords(title: &str) -> (r: bool)
    ensures
        r == has_excluded_keyword(title@),
{
    let l = lowercase(title);
    let l = chars_of(l.as_str());
    contains_str(&l, "review") || contains_str(&l, "reaction") || contains_str(&l, "analysis")
        || contains_str(&l, "explained") || contains_str(&l, "ending") || contains_str(
        &l,
        "theory",
    ) || contains_str(&l, "react") || contains_str(&l, "blooper") || contains_str(&l, "gag")
}

/// `s` without the non-alphabetic characters at its start.
pub open spec fn trim_start_nonalpha(s: Seq<char>) -> Seq<char>
    decreases s.len(),
{
    if s.len() > 0 && !char_is_alphabetic(s[0]) {
        trim_start_nonalpha(s.drop_first())
    } else {
        s
    }
}

/// `s` without the non-alphabetic characters at its end.
pub open spec fn trim_end_nonalpha(s: Seq<char>) -> Seq<char>
    decreases s.len(),
{
    if s.len() > 0 && !char_is_alphabetic(s.last()) {
        trim_end_nonalpha(s.drop_last())
    } else {
        s
    }
}

/// `s` without non-alphabetic characters at either end.
pub open spec fn trim_nonalpha(s: Seq<char>) -> Seq<char> {
    trim_end_nonalpha(trim_start_nonalpha(s))
}

/// Trims non-alphabetic characters from both ends.
pub fn trim_nonalpha_chars(s: &Vec<char>) -> (r: Vec<char>)
    ensures
        r@ == trim_nonalpha(s@),
{
    let mut i: usize = 0;
    assert(s@.skip(0) =~= s@);
    while i < s.len() && !is_alphabetic(s[i])
        invariant
            i <= s.len(),
            trim_start_nonalpha(s@.skip(i as int)) == trim_start_nonalpha(s@),
        decreases s.len() - i,
    {
        assert(s@.skip(i as int).drop_first() =~= s@.skip(i + 1));
        i = i + 1;
    }
    let mut j: usize = s.len();
    assert(s@.skip(i as int).take(j - i) =~= s@.skip(i as int));
    while j > i && !is_alphabetic(s[j - 1])
        invariant
            i <= j <= s.len(),
            trim_start_nonalpha(s@) == s@.skip(i as int),
            trim_end_nonalpha(s@.subrange(i as int, j as int)) == trim_nonalpha(s@),
        decreases j,
    {
        assert(s@.subrange(i as int, j as int).drop_last() =~= s@.subrange(i as int, j - 1));
        j = j - 1;
    }
    let mut out: Vec<char> = Vec::new();
    let mut k: usize = i;
    while k < j
        invariant
            i <= k <= j <= s.len(),
            out@ == s@.subrange(i as int, k as int),
        decreases j - k,
    {
        out.push(s[k]);
        k = k + 1;
        assert(out@ =~= s@.subrange(i as int, k as int));
    }
    out
}

/// Some whitespace-separated word of `s`, trimmed of non-alphabetic
/// characters at both ends, is exactly `short`.
pub open spec fn has_short_word(s: Seq<char>) -> bool {
    exists|i: int| 0 <= i < split_ws(s).len() && trim_nonalpha(#[trigger] split_ws(s)[i]) == "short"@
}

/// Category that the lowercased title's keywords point to, checked in this
/// order: deleted scene, behind the scenes, interview, short, trailer,
/// featurette; none when no keyword is present.
pub open spec fn inferred_category(title: Seq<char>) -> Option<ContentCategory> {
    let l = str_lowercase(title);
    if contains_seq(l, "deleted scene"@) || contains_seq(l, "deleted clip"@) {
        Some(ContentCategory::DeletedScene)
    } else if contains_seq(l, "behind the scene"@) || contains_seq(l, "making of"@) || contains_seq(
        l,
        "on set"@,
    ) || contains_seq(l, "on the set"@) || contains_seq(l, "b-roll"@) || contains_seq(l, "broll"@)
        || contains_seq(l, "bts"@) {
        Some(ContentCategory::BehindTheScenes)
    } else if contains_seq(l, "interview"@) || contains_seq(l, "q&a"@) || contains_seq(l, "q & a"@)
        || contains_seq(l, "press conference"@) || contains_seq(l, "talks about"@) || contains_seq(
        l,
        "podcast"@,
    ) {
        Some(ContentCategory::Interview)
    } else if contains_seq(l, "short film"@) || contains_seq(l, "animated short"@) || has_short_word(
        l,
    ) {
        Some(ContentCategory::Short)
    } else if contains_seq(l, "trailer"@) || contains_seq(l, "teaser"@) || contains_seq(l, "promo"@) {
        Some(ContentCategory::Trailer)
    } else if contains_seq(l, "featurette"@) || contains_seq(l, "documentary"@) || contains_seq(
        l,
        "bonus clip"@,
    ) || contains_seq(l, "why we love"@) {
        Some(ContentCategory::Featurette)
    } else {
        None
    }
}

fn contains_short_word(l: &Vec<char>) -> (r: bool)
    ensures
        r == has_short_word(l@),
{
    let words = split_whitespace(l);
    let target = chars_of("short");
    let mut i: usize = 0;
    while i < words.len()
        invariant
            i <= words.len(),
            words.deep_view() == split_ws(l@),
            target@ == "short"@,
            forall|k: int| 0 <= k < i ==> trim_nonalpha(#[trigger] split_ws(l@)[k]) != "short"@,
        decreases words.len() - i,
    {
        assert(words.deep_view()[i as int] == words@[i as int]@);
        let t = trim_nonalpha_chars(&words[i]);
        if t.len() == target.len() && crate::text::matches_at(&t, &target, 0) {
            assert(t@.subrange(0, t@.len() as int) =~= t@);
            return true;
        }
        proof {
            if t@ == "short"@ {
                assert(t@.subrange(0, t@.len() as int) =~= t@);
                assert(crate::text::occurs_at(t@, target@, 0));
            }
        }
        i = i + 1;
    }
    false
}

/// Infer the content category from keywords in a video title; `None` when
/// no keyword is present.
pub fn infer_category_from_title(title: &str) -> (r: Option<ContentCategory>)
    ensures
        r == inferred_category(title@),
{
    let l = lowercase(title);
    let l = chars_of(l.as_str());
    if contains_str(&l, "deleted scene") || contains_str(&l, "deleted clip") {
        return Some(ContentCategory::DeletedScene);
    }
    if contains_str(&l, "behind the scene") || contains_str(&l, "making of") || contains_str(
        &l,
        "on set",
    ) || contains_str(&l, "on the set") || contains_str(&l, "b-roll") || contains_str(&l, "broll")
        || contains_str(&l, "bts") {
        return Some(ContentCategory::BehindTheScenes);
    }
    if contains_str(&l, "interview") || contains_str(&l, "q&a") || contains_str(&l, "q & a")
        || contains_str(&l, "press conference") || contains_str(&l, "talks about") || contains_str(
        &l,
        "podcast",
    ) {
        return Some(ContentCategory::Interview);
    }
    if contains_str(&l, "short film") || contains_str(&l, "animated short") || contains_short_word(
        &l,
    ) {
        return Some(ContentCategory::Short);
    }
    if contains_str(&l, "trailer") || contains_str(&l, "teaser") || contains_str(&l, "promo") {
        return Some(ContentCategory::Trailer);
    }
    if contains_str(&l, "featurette") || contains_str(&l, "documentary") || contains_str(
        &l,
        "bonus clip",
    ) || contains_str(&l, "why we love") {
        return Some(ContentCategory::Featurette);
    }
    None
}

} // verus!

verus! {

// ---------------------------------------------------------------------------
// Season references.
// ---------------------------------------------------------------------------

/// `Season (3)` and `Season(12)`.
pub open spec fn season_paren_pattern() -> Seq<char> {
    "(?i)\\bseason\\s*\\(\\s*(\\d{1,2})\\s*\\)"@
}

/// `Season 3`, `season 03`.
pub open spec fn season_word_pattern() -> Seq<char> {
    "(?i)\\bseason\\s+(\\d{1,2})\\b"@
}

/// `S03E01`, `S3E1`, `S05`.
pub open spec fn season_code_pattern() -> Seq<char> {
    "(?i)\\bS(\\d{1,2})(?:E\\d+)?\\b"@
}

/// One captured season number added to the seasons found so far: kept when
/// it parses as a `u8`, is positive and is not yet listed.
pub open spec fn add_season(found: Seq<u8>, capture: Option<Seq<char>>) -> Seq<u8> {
    match capture {
        Some(text) => match parse_unsigned(text, 255) {
            Some(n) => if n > 0 && !found.contains(n as u8) {
                found.push(n as u8)
            } else {
                found
            },
            None => found,
        },
        None => found,
    }
}

/// The captures of one pattern added in order to the seasons found so far.
pub open spec fn add_seasons(found: Seq<u8>, captures: Seq<Option<Seq<char>>>) -> Seq<u8>
    decreases captures.len(),
{
    if captures.len() == 0 {
        found
    } else {
        add_season(add_seasons(found, captures.drop_last()), captures.last())
    }
}

/// The seasons found in the captures of several patterns, pattern by
/// pattern.
pub open spec fn seasons_from_captures(per_pattern: Seq<Seq<Option<Seq<char>>>>) -> Seq<u8>
    decreases per_pattern.len(),
{
    if per_pattern.len() == 0 {
        seq![]
    } else {
        add_seasons(seasons_from_captures(per_pattern.drop_last()), per_pattern.last())
    }
}

/// The season numbers a title mentions, in the order of the patterns
/// `Season (N)`, `Season N` and `SNN[ENN]`, each number once.
pub open spec fn mentioned_seasons(title: Seq<char>) -> Seq<u8> {
    seasons_from_captures(
        seq![
            group1_captures(season_paren_pattern(), title),
            group1_captures(season_word_pattern(), title),
            group1_captures(season_code_pattern(), title),
        ],
    )
}

/// Adding captures keeps the found seasons distinct and positive.
proof fn lemma_add_seasons_unique(found: Seq<u8>, captures: Seq<Option<Seq<char>>>)
    requires
        found.no_duplicates(),
        forall|i: int| 0 <= i < found.len() ==> #[trigger] found[i] > 0,
    ensures
        add_seasons(found, captures).no_duplicates(),
        forall|i: int|
            0 <= i < add_seasons(found, captures).len() ==> #[trigger] add_seasons(found, captures)[i]
                > 0,
    decreases captures.len(),
{
    if captures.len() > 0 {
        lemma_add_seasons_unique(found, captures.drop_last());
        let prev = add_seasons(found, captures.drop_last());
        match captures.last() {
            Some(text) => match parse_unsigned(text, 255) {
                Some(n) => {
                    if n > 0 && !prev.contains(n as u8) {
                        let next = prev.push(n as u8);
                        assert forall|a: int, b: int| 0 <= a < b < next.len() implies next[a] != next[b] by {
                            if b == next.len() - 1 {
                                assert(prev.contains(prev[a]));
                            }
                        }
                    }
                },
                None => {},
            },
            None => {},
        }
    }
}

/// The seasons a title mentions are listed once each, and none is season 0.
pub proof fn law_mentioned_seasons_unique(title: Seq<char>)
    ensures
        mentioned_seasons(title).no_duplicates(),
        forall|i: int| 0 <= i < mentioned_seasons(title).len() ==> #[trigger] mentioned_seasons(title)[i] > 0,
{
    let per = seq![
        group1_captures(season_paren_pattern(), title),
        group1_captures(season_word_pattern(), title),
        group1_captures(season_code_pattern(), title),
    ];
    let empty = Seq::<u8>::empty();
    lemma_add_seasons_unique(empty, per[0]);
    let s1 = add_seasons(empty, per[0]);
    lemma_add_seasons_unique(s1, per[1]);
    let s2 = add_seasons(s1, per[1]);
    lemma_add_seasons_unique(s2, per[2]);
    assert(per.drop_last().drop_last().drop_last() =~= Seq::<Seq<Option<Seq<char>>>>::empty());
    assert(per.drop_last().drop_last() =~= seq![per[0]]);
    assert(per.drop_last() =~= seq![per[0], per[1]]);
    let p1 = per.drop_last().drop_last();
    assert(p1.drop_last() =~= Seq::<Seq<Option<Seq<char>>>>::empty());
    assert(seasons_from_captures(p1.drop_last()) =~= empty);
    assert(p1.last() == per[0]);
    assert(seasons_from_captures(p1) == s1);
    assert(seasons_from_captures(per.drop_last()) == s2);
}

pub fn contains_u8(v: &[u8], x: u8) -> (r: bool)
    ensures
        r == v@.contains(x),
{
    let mut i: usize = 0;
    while i < v.len()
        invariant
            i <= v.len(),
            forall|k: int| 0 <= k < i ==> v@[k] != x,
        decreases v.len() - i,
    {
        if v[i] == x {
            assert(v@[i as int] == x);
            return true;
        }
        i = i + 1;
    }
    false
}

/// Season numbers from the group-1 captures of the season patterns, pattern
/// by pattern: each capture that parses as a positive `u8` not yet listed.
pub fn season_numbers_from_captures(per_pattern: &Vec<Vec<Option<String>>>) -> (r: Vec<u8>)
    ensures
        r@ == seasons_from_captures(per_pattern.deep_view()),
{
    let mut out: Vec<u8> = Vec::new();
    let mut p: usize = 0;
    assert(per_pattern.deep_view().take(0) =~= seq![]);
    while p < per_pattern.len()
        invariant
            p <= per_pattern.len(),
            out@ == seasons_from_captures(per_pattern.deep_view().take(p as int)),
        decreases per_pattern.len() - p,
    {
        let caps = &per_pattern[p];
        let ghost before = out@;
        let mut i: usize = 0;
        assert(caps.deep_view().take(0) =~= seq![]);
        while i < caps.len()
            invariant
                i <= caps.len(),
                out@ == add_seasons(before, caps.deep_view().take(i as int)),
            decreases caps.len() - i,
        {
            assert(caps.deep_view().take(i + 1).drop_last() =~= caps.deep_view().take(i as int));
            assert(caps.deep_view().take(i + 1).last() == caps.deep_view()[i as int]);
            match &caps[i] {
                Some(text) => {
                    let cs = chars_of(text.as_str());
                    match parse_unsigned_chars(&cs, 255) {
                        Some(n) => {
                            if n > 0 && !contains_u8(out.as_slice(), n as u8) {
                                out.push(n as u8);
                            }
                        },
                        None => {},
                    }
                },
                None => {},
            }
            i = i + 1;
        }
        assert(caps.deep_view().take(caps.len() as int) =~= caps.deep_view());
        assert(per_pattern.deep_view().take(p + 1).drop_last() =~= per_pattern.deep_view().take(
            p as int,
        ));
        assert(per_pattern.deep_view().take(p + 1).last() == per_pattern.deep_view()[p as int]);
        p = p + 1;
    }
    assert(per_pattern.deep_view().take(per_pattern.len() as int) =~= per_pattern.deep_view());
    out
}

/// Season numbers a video title mentions (`Season (N)`, `Season N`, `SNN`
/// and `SNNENN`), each once, zero excluded.
pub fn extract_season_numbers(title: &str) -> (r: Vec<u8>)
    ensures
        r@ == mentioned_seasons(title@),
{
    let p1 = "(?i)\\bseason\\s*\\(\\s*(\\d{1,2})\\s*\\)";
    let p2 = "(?i)\\bseason\\s+(\\d{1,2})\\b";
    let p3 = "(?i)\\bS(\\d{1,2})(?:E\\d+)?\\b";
    proof {
        reveal_strlit("(?i)\\bseason\\s*\\(\\s*(\\d{1,2})\\s*\\)");
        reveal_strlit("(?i)\\bseason\\s+(\\d{1,2})\\b");
        reveal_strlit("(?i)\\bS(\\d{1,2})(?:E\\d+)?\\b");
    }
    let mut all: Vec<Vec<Option<String>>> = Vec::new();
    all.push(captures_group1(p1, title));
    all.push(captures_group1(p2, title));
    all.push(captures_group1(p3, title));
    assert(all.deep_view() =~= seq![
        group1_captures(season_paren_pattern(), title@),
        group1_captures(season_word_pattern(), title@),
        group1_captures(season_code_pattern(), title@),
    ]);
    season_numbers_from_captures(&all)
}

/// The title mentions at least one season and none of the mentioned seasons
/// is available.
pub open spec fn mentions_only_unavailable(mentioned: Seq<u8>, available: Seq<u8>) -> bool {
    mentioned.len() > 0 && forall|i: int| 0 <= i < mentioned.len() ==> !available.contains(
        #[trigger] mentioned[i],
    )
}

/// Whether the title mentions seasons, none of which is available; a title
/// that mentions no season is general content and is not excluded.
pub fn references_unavailable_season(title: &str, available_seasons: &[u8]) -> (r: bool)
    ensures
        r == mentions_only_unavailable(mentioned_seasons(title@), available_seasons@),
{
    let mentioned = extract_season_numbers(title);
    if mentioned.len() == 0 {
        return false;
    }
    let mut i: usize = 0;
    while i < mentioned.len()
        invariant
            i <= mentioned.len(),
            mentioned@ == mentioned_seasons(title@),
            forall|k: int| 0 <= k < i ==> !available_seasons@.contains(#[trigger] mentioned@[k]),
        decreases mentioned.len() - i,
    {
        if contains_u8(available_seasons, mentioned[i]) {
            assert(available_seasons@.contains(mentioned@[i as int]));
            return false;
        }
        i = i + 1;
    }
    true
}

} // verus!

verus! {

// ---------------------------------------------------------------------------
// Roman numerals and sequel numbers.
// ---------------------------------------------------------------------------

/// The uppercase Roman numeral of a sequel number from 2 to 19, written
/// the standard way (IV, not IIII).
pub open spec fn roman_upper(n: nat) -> Seq<char> {
    if n == 2 {
        "II"@
    } else if n == 3 {
        "III"@
    } else if n == 4 {
        "IV"@
    } else if n == 5 {
        "V"@
    } else if n == 6 {
        "VI"@
    } else if n == 7 {
        "VII"@
    } else if n == 8 {
        "VIII"@
    } else if n == 9 {
        "IX"@
    } else if n == 10 {
        "X"@
    } else if n == 11 {
        "XI"@
    } else if n == 12 {
        "XII"@
    } else if n == 13 {
        "XIII"@
    } else if n == 14 {
        "XIV"@
    } else if n == 15 {
        "XV"@
    } else if n == 16 {
        "XVI"@
    } else if n == 17 {
        "XVII"@
    } else if n == 18 {
        "XVIII"@
    } else {
        "XIX"@
    }
}

/// The first number from `n` to 19 whose numeral is `u`.
pub open spec fn numeral_from(u: Seq<char>, n: nat) -> Option<nat>
    decreases 20 - n,
{
    if n > 19 {
        None
    } else if u == roman_upper(n) {
        Some(n)
    } else {
        numeral_from(u, n + 1)
    }
}

/// The sequel number (2 to 19) whose Roman numeral the text is, once
/// uppercased; `None` for any other text, including letters I, V and X that
/// are not a numeral written the standard way (such as "VV" or "IIII").
pub open spec fn roman_sequel_number(s: Seq<char>) -> Option<u32> {
    match numeral_from(str_uppercase(s), 2) {
        Some(v) => Some(v as u32),
        None => None,
    }
}

fn roman_upper_exec(n: u32) -> (r: &'static str)
    requires
        2 <= n <= 19,
    ensures
        r@ == roman_upper(n as nat),
{
    if n == 2 {
        "II"
    } else if n == 3 {
        "III"
    } else if n == 4 {
        "IV"
    } else if n == 5 {
        "V"
    } else if n == 6 {
        "VI"
    } else if n == 7 {
        "VII"
    } else if n == 8 {
        "VIII"
    } else if n == 9 {
        "IX"
    } else if n == 10 {
        "X"
    } else if n == 11 {
        "XI"
    } else if n == 12 {
        "XII"
    } else if n == 13 {
        "XIII"
    } else if n == 14 {
        "XIV"
    } else if n == 15 {
        "XV"
    } else if n == 16 {
        "XVI"
    } else if n == 17 {
        "XVII"
    } else if n == 18 {
        "XVIII"
    } else {
        "XIX"
    }
}

/// Convert a Roman numeral of a sequel number (II to XIX, whatever the
/// case) to that number; `None` for anything else.
pub fn roman_to_int(roman: &str) -> (r: Option<u32>)
    ensures
        r == roman_sequel_number(roman@),
{
    let up = uppercase(roman);
    let cs = chars_of(up.as_str());
    let mut n: u32 = 2;
    while n <= 19
        invariant
            2 <= n <= 20,
            cs@ == str_uppercase(roman@),
            numeral_from(cs@, 2) == numeral_from(cs@, n as nat),
        decreases 20 - n,
    {
        if equals_str(&cs, roman_upper_exec(n)) {
            return Some(n);
        }
        n = n + 1;
    }
    None
}

proof fn lemma_numeral_from_reads(n: nat, k: nat)
    requires
        2 <= k <= n <= 19,
    ensures
        numeral_from(roman_upper(n), k) == Some(n),
    decreases n - k,
{
    reveal_strlit("II");
    reveal_strlit("III");
    reveal_strlit("IV");
    reveal_strlit("V");
    reveal_strlit("VI");
    reveal_strlit("VII");
    reveal_strlit("VIII");
    reveal_strlit("IX");
    reveal_strlit("X");
    reveal_strlit("XI");
    reveal_strlit("XII");
    reveal_strlit("XIII");
    reveal_strlit("XIV");
    reveal_strlit("XV");
    reveal_strlit("XVI");
    reveal_strlit("XVII");
    reveal_strlit("XVIII");
    reveal_strlit("XIX");
    if k < n {
        let a = roman_upper(n);
        let b = roman_upper(k);
        assert(a.len() != b.len() || a[0] != b[0] || a[1] != b[1] || a[a.len() - 1] != b[b.len() - 1]);
        assert(a != b);
        lemma_numeral_from_reads(n, k + 1);
    }
}

/// Each standard numeral from II to XIX is read as its own number, and a
/// text is read as a number only when it is that number's numeral.
pub proof fn law_numerals_read_exactly(u: Seq<char>, n: nat)
    requires
        2 <= n <= 19,
    ensures
        numeral_from(roman_upper(n), 2) == Some(n),
        numeral_from(u, 2) == Some(n) ==> u == roman_upper(n),
{
    lemma_numeral_from_reads(n, 2);
    lemma_numeral_from_sound(u, 2);
}

proof fn lemma_numeral_from_sound(u: Seq<char>, k: nat)
    ensures
        numeral_from(u, k) matches Some(v) ==> k <= v <= 19 && u == roman_upper(v),
    decreases 20 - k,
{
    if k <= 19 && u != roman_upper(k) {
        lemma_numeral_from_sound(u, k + 1);
    }
}

/// The lowercase Roman numeral of a sequel number from 2 to 19.
pub open spec fn roman_lower(n: nat) -> Seq<char> {
    if n == 2 {
        "ii"@
    } else if n == 3 {
        "iii"@
    } else if n == 4 {
        "iv"@
    } else if n == 5 {
        "v"@
    } else if n == 6 {
        "vi"@
    } else if n == 7 {
        "vii"@
    } else if n == 8 {
        "viii"@
    } else if n == 9 {
        "ix"@
    } else if n == 10 {
        "x"@
    } else if n == 11 {
        "xi"@
    } else if n == 12 {
        "xii"@
    } else if n == 13 {
        "xiii"@
    } else if n == 14 {
        "xiv"@
    } else if n == 15 {
        "xv"@
    } else if n == 16 {
        "xvi"@
    } else if n == 17 {
        "xvii"@
    } else if n == 18 {
        "xviii"@
    } else {
        "xix"@
    }
}

fn roman_lower_exec(n: u64) -> (r: &'static str)
    requires
        2 <= n <= 19,
    ensures
        r@ == roman_lower(n as nat),
{
    if n == 2 {
        "ii"
    } else if n == 3 {
        "iii"
    } else if n == 4 {
        "iv"
    } else if n == 5 {
        "v"
    } else if n == 6 {
        "vi"
    } else if n == 7 {
        "vii"
    } else if n == 8 {
        "viii"
    } else if n == 9 {
        "ix"
    } else if n == 10 {
        "x"
    } else if n == 11 {
        "xi"
    } else if n == 12 {
        "xii"
    } else if n == 13 {
        "xiii"
    } else if n == 14 {
        "xiv"
    } else if n == 15 {
        "xv"
    } else if n == 16 {
        "xvi"
    } else if n == 17 {
        "xvii"
    } else if n == 18 {
        "xviii"
    } else {
        "xix"
    }
}

/// The movie title followed by the number `n` occurs in the video title
/// (with a space in the normalized title, or without one in the title with
/// its spaces removed), and not as the start of a longer number ending in 0
/// such as a year.
pub open spec fn sequel_digits_hit(v: Seq<char>, vns: Seq<char>, m: Seq<char>, n: nat) -> bool {
    (contains_seq(v, m + " "@ + decimal(n)) || contains_seq(vns, m + decimal(n))) && !(contains_seq(
        v,
        m + " "@ + decimal(n) + "0"@,
    ) || contains_seq(vns, m + decimal(n) + "0"@))
}

/// The video title names a sequel of the movie: after normalization it
/// holds the movie title followed by a number from 2 to 19, or followed by a
/// word that is a Roman numeral from II to XIX, or (spaces removed) by a
/// lowercase Roman numeral from ii to xix.
pub open spec fn mentions_sequel(video: Seq<char>, movie: Seq<char>) -> bool {
    let v = normalize_title_text(video);
    let m = normalize_title_text(movie);
    let vns = replace_seq(v, " "@, ""@);
    ||| exists|n: nat| 2 <= n <= 19 && #[trigger] sequel_digits_hit(v, vns, m, n)
    ||| exists|i: int|
        0 <= i < split_ws(v).len() && roman_sequel_number(#[trigger] split_ws(v)[i]) is Some
            && contains_seq(v, m + " "@ + split_ws(v)[i])
    ||| exists|n: nat| 2 <= n <= 19 && contains_seq(vns, m + #[trigger] roman_lower(n))
}

/// Whether a video title mentions a sequel number of the movie (for example
/// "REC 2", "REC2" or "REC II" for "REC").
pub fn mentions_sequel_number(video_title: &str, movie_title: &str) -> (r: bool)
    ensures
        r == mentions_sequel(video_title@, movie_title@),
{
    let v = normalize_title_chars(video_title);
    proof {
        reveal_strlit(" ");
    }
    let vns = replace_str(&v, " ", "");
    let m = normalize_title_chars(movie_title);
    let ghost gv = v@;
    let ghost gm = m@;
    let ghost gvns = vns@;
    assert(gv == normalize_title_text(video_title@));
    assert(gm == normalize_title_text(movie_title@));
    assert(gvns == replace_seq(gv, " "@, ""@));
    let mut n: u64 = 2;
    while n <= 19
        invariant
            2 <= n <= 20,
            gv == normalize_title_text(video_title@),
            gm == normalize_title_text(movie_title@),
            gvns == replace_seq(gv, " "@, ""@),
            v@ == gv,
            m@ == gm,
            vns@ == gvns,
            forall|k: nat| 2 <= k < n ==> !#[trigger] sequel_digits_hit(gv, gvns, gm, k),
        decreases 20 - n,
    {
        let mut with_space = m.clone();
        push_str(&mut with_space, " ");
        push_decimal(&mut with_space, n);
        let mut without_space = m.clone();
        push_decimal(&mut without_space, n);
        if contains(&v, &with_space) || contains(&vns, &without_space) {
            let mut year1 = with_space.clone();
            push_str(&mut year1, "0");
            let mut year2 = without_space.clone();
            push_str(&mut year2, "0");
            if !(contains(&v, &year1) || contains(&vns, &year2)) {
                assert(sequel_digits_hit(gv, gvns, gm, n as nat));
                return true;
            }
        }
        n = n + 1;
    }
    let words = split_whitespace(&v);
    let mut i: usize = 0;
    while i < words.len()
        invariant
            i <= words.len(),
            gv == normalize_title_text(video_title@),
            gm == normalize_title_text(movie_title@),
            gvns == replace_seq(gv, " "@, ""@),
            v@ == gv,
            m@ == gm,
            words.deep_view() == split_ws(gv),
            forall|k: int|
                0 <= k < i ==> !(roman_sequel_number(#[trigger] split_ws(gv)[k]) is Some
                    && contains_seq(gv, gm + " "@ + split_ws(gv)[k])),
        decreases words.len() - i,
    {
        assert(words.deep_view()[i as int] == words@[i as int]@);
        let w = string_of(&words[i]);
        if roman_to_int(w.as_str()).is_some() {
            let mut with_space = m.clone();
            push_str(&mut with_space, " ");
            push_chars(&mut with_space, &words[i]);
            if contains(&v, &with_space) {
                return true;
            }
        }
        i = i + 1;
    }
    let mut n: u64 = 2;
    while n <= 19
        invariant
            2 <= n <= 20,
            gv == normalize_title_text(video_title@),
            gm == normalize_title_text(movie_title@),
            gvns == replace_seq(gv, " "@, ""@),
            m@ == gm,
            vns@ == gvns,
            forall|k: nat| 2 <= k < n ==> !contains_seq(gvns, gm + #[trigger] roman_lower(k)),
        decreases 20 - n,
    {
        let mut without_space = m.clone();
        push_str(&mut without_space, roman_lower_exec(n));
        if contains(&vns, &without_space) {
            return true;
        }
        n = n + 1;
    }
    false
}

// ---------------------------------------------------------------------------
// Years.
// ---------------------------------------------------------------------------

/// Four-digit years 1900 to 2099 standing as words.
pub open spec fn year_pattern() -> Seq<char> {
    "\\b(19\\d{2}|20\\d{2})\\b"@
}

/// Some captured year parses as a `u16` that differs from `expected`.
pub open spec fn has_other_year(captures: Seq<Option<Seq<char>>>, expected: u16) -> bool {
    exists|i: int|
        0 <= i < captures.len() && (#[trigger] captures[i] matches Some(text) && parse_unsigned(
            text,
            65535,
        ) matches Some(y) && y != expected)
}

/// Whether some captured year differs from the expected year.
pub fn captures_mention_other_year(captures: &Vec<Option<String>>, expected_year: u16) -> (r: bool)
    ensures
        r == has_other_year(captures.deep_view(), expected_year),
{
    let mut i: usize = 0;
    while i < captures.len()
        invariant
            i <= captures.len(),
            forall|k: int|
                0 <= k < i ==> !(#[trigger] captures.deep_view()[k] matches Some(text)
                    && parse_unsigned(text, 65535) matches Some(y) && y != expected_year),
        decreases captures.len() - i,
    {
        assert(captures.deep_view()[i as int] == captures@[i as int].deep_view());
        match &captures[i] {
            Some(text) => {
                let cs = chars_of(text.as_str());
                match parse_unsigned_chars(&cs, 65535) {
                    Some(y) => {
                        if y != expected_year as u64 {
                            return true;
                        }
                    },
                    None => {},
                }
            },
            None => {},
        }
        i = i + 1;
    }
    false
}

/// Whether the title mentions a year from 1900 to 2099 other than the
/// expected one.
pub fn mentions_different_year(title: &str, expected_year: u16) -> (r: bool)
    ensures
        r == has_other_year(group1_captures(year_pattern(), title@), expected_year),
{
    let p = "\\b(19\\d{2}|20\\d{2})\\b";
    proof {
        reveal_strlit("\\b(19\\d{2}|20\\d{2})\\b");
    }
    let caps = captures_group1(p, title);
    captures_mention_other_year(&caps, expected_year)
}


/// A title is reported as holding an excluded keyword exactly when its
/// lowercased form contains one of review, reaction, analysis, explained,
/// ending, theory, react, blooper or gag.
pub proof fn law_excluded_keywords(title: Seq<char>)
    ensures
        contains_seq(str_lowercase(title), "review"@) ==> has_excluded_keyword(title),
        contains_seq(str_lowercase(title), "reaction"@) ==> has_excluded_keyword(title),
        contains_seq(str_lowercase(title), "analysis"@) ==> has_excluded_keyword(title),
        contains_seq(str_lowercase(title), "explained"@) ==> has_excluded_keyword(title),
        contains_seq(str_lowercase(title), "ending"@) ==> has_excluded_keyword(title),
        contains_seq(str_lowercase(title), "theory"@) ==> has_excluded_keyword(title),
        contains_seq(str_lowercase(title), "react"@) ==> has_excluded_keyword(title),
        contains_seq(str_lowercase(title), "blooper"@) ==> has_excluded_keyword(title),
        contains_seq(str_lowercase(title), "gag"@) ==> has_excluded_keyword(title),
        has_excluded_keyword(title) ==> (contains_seq(str_lowercase(title), "review"@) || contains_seq(str_lowercase(title), "reaction"@) || contains_seq(str_lowercase(title), "analysis"@) || contains_seq(str_lowercase(title), "explained"@) || contains_seq(str_lowercase(title), "ending"@) || contains_seq(str_lowercase(title), "theory"@) || contains_seq(str_lowercase(title), "react"@) || contains_seq(str_lowercase(title), "blooper"@) || contains_seq(str_lowercase(title), "gag"@)),
{
}

/// The category a title points to, by the keywords of its lowercased form,
/// tried in order: deleted scene or clip; behind the scenes (making of, on
/// set, on the set, b-roll, broll, bts); interview (q&a, press conference,
/// talks about, podcast); short (short film, animated short, the word
/// short); trailer (teaser, promo); featurette (documentary, bonus clip, why
/// we love); none without any of these.
pub proof fn law_inferred_category(title: Seq<char>)
    ensures
        ({
            let l = str_lowercase(title);
            let ds = contains_seq(l, "deleted scene"@) || contains_seq(l, "deleted clip"@);
            let bts = contains_seq(l, "behind the scene"@) || contains_seq(l, "making of"@) || contains_seq(l, "on set"@) || contains_seq(l, "on the set"@) || contains_seq(l, "b-roll"@) || contains_seq(l, "broll"@) || contains_seq(l, "bts"@);
            let iv = contains_seq(l, "interview"@) || contains_seq(l, "q&a"@) || contains_seq(l, "q & a"@) || contains_seq(l, "press conference"@) || contains_seq(l, "talks about"@) || contains_seq(l, "podcast"@);
            let sh = contains_seq(l, "short film"@) || contains_seq(l, "animated short"@) || has_short_word(l);
            let tr = contains_seq(l, "trailer"@) || contains_seq(l, "teaser"@) || contains_seq(l, "promo"@);
            let fe = contains_seq(l, "featurette"@) || contains_seq(l, "documentary"@) || contains_seq(l, "bonus clip"@) || contains_seq(l, "why we love"@);
            &&& ds ==> inferred_category(title) == Some(ContentCategory::DeletedScene)
            &&& !ds && bts ==> inferred_category(title) == Some(ContentCategory::BehindTheScenes)
            &&& !ds && !bts && iv ==> inferred_category(title) == Some(ContentCategory::Interview)
            &&& !ds && !bts && !iv && sh ==> inferred_category(title) == Some(ContentCategory::Short)
            &&& !ds && !bts && !iv && !sh && tr ==> inferred_category(title) == Some(
                ContentCategory::Trailer,
            )
            &&& !ds && !bts && !iv && !sh && !tr && fe ==> inferred_category(title) == Some(
                ContentCategory::Featurette,
            )
            &&& !ds && !bts && !iv && !sh && !tr && !fe ==> inferred_category(title) is None
        }),
{
}

} // verus!
