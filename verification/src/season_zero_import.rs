//! Local Season 0 files: recognising them, reading their episode number,
//! naming them in the `Series - S00Exx - Title.mp4` form, and the tally of an
//! import run.
use vstd::prelude::*;
use crate::patterns::{captures_group1, group1_captures};
use crate::season_pack::{SeasonPackProcessor, path_is_video};
use crate::text::{
    all_digits, chars_of, contains_seq, decimal, decimal_padded, digit_char, digit_value,
    digits_value, ends_with_seq, equals_str, is_ascii_digit, lemma_contains_middle, parse_unsigned,
    parse_unsigned_chars, push_chars, push_decimal_padded, push_str, string_of,
};

verus! {

/// The pattern of a Season 0 episode code, `S00E` and one or two digits in
/// any case, the digits captured.
pub open spec fn season_zero_code_pattern() -> Seq<char> {
    "(?i)S00E(\\d{1,2})"@
}

/// The episode number in the first match's capture, when it parses as a `u8`.
pub open spec fn episode_from_captures(caps: Seq<Option<Seq<char>>>) -> Option<u8> {
    if caps.len() > 0 {
        match caps[0] {
            Some(t) => match parse_unsigned(t, 255) {
                Some(n) => Some(n as u8),
                None => None,
            },
            None => None,
        }
    } else {
        None
    }
}

/// The character that replaces one not allowed in file names.
pub open spec fn sanitize_char(c: char) -> char {
    if c == '/' || c == '\\' || c == ':' || c == '*' || c == '?' || c == '"' || c == '<' || c
        == '>' || c == '|' {
        '_'
    } else {
        c
    }
}

/// The name with each character that file systems refuse replaced by `_`.
pub open spec fn sanitized(s: Seq<char>) -> Seq<char> {
    s.map_values(|c: char| sanitize_char(c))
}

/// `{series} - S00E{number:02} - {sanitized title}.mp4`.
pub open spec fn season_zero_filename(series: Seq<char>, number: u8, title: Seq<char>) -> Seq<
    char,
> {
    series + " - S00E"@ + decimal_padded(number as nat, 2) + " - "@ + sanitized(title) + ".mp4"@
}

/// A directory entry is taken for import: it is not the `Season 00` folder,
/// it is a video file, and its name holds a Season 0 episode code.
pub open spec fn is_season_zero_candidate(name: Seq<char>) -> bool {
    name != "Season 00"@ && path_is_video(name) && group1_captures(
        season_zero_code_pattern(),
        name,
    ).len() > 0
}

/// Sanitising keeps the length, leaves none of the refused characters, and
/// changes nothing on a second pass.
pub proof fn law_sanitized_is_clean(s: Seq<char>)
    ensures
        sanitized(s).len() == s.len(),
        forall|i: int|
            0 <= i < s.len() ==> {
                let c = #[trigger] sanitized(s)[i];
                c != '/' && c != '\\' && c != ':' && c != '*' && c != '?' && c != '"' && c != '<'
                    && c != '>' && c != '|'
            },
        sanitized(sanitized(s)) == sanitized(s),
{
    assert(sanitized(sanitized(s)) =~= sanitized(s));
}

/// A digit character reads back as its digit.
proof fn lemma_digit_char_value(d: nat)
    requires
        d < 10,
    ensures
        is_ascii_digit(digit_char(d)),
        digit_value(digit_char(d)) == d,
{
}

/// Two-digit codes: for a number below 100, `{number:02}` is two ASCII
/// digits that read back as the number.
pub proof fn law_two_digit_code(n: nat)
    requires
        n < 100,
    ensures
        decimal_padded(n, 2).len() == 2,
        all_digits(decimal_padded(n, 2)),
        digits_value(decimal_padded(n, 2)) == n,
        parse_unsigned(decimal_padded(n, 2), 255) == Some(n),
{
    let p = decimal_padded(n, 2);
    if n < 10 {
        lemma_digit_char_value(n);
        assert(decimal(n) == seq![digit_char(n)]);
        assert(p =~= seq!['0', digit_char(n)]);
        assert(p.drop_last() =~= seq!['0']);
        assert(seq!['0'].drop_last() =~= Seq::<char>::empty());
    } else {
        lemma_digit_char_value(n / 10);
        lemma_digit_char_value(n % 10);
        assert(decimal(n / 10) == seq![digit_char(n / 10)]);
        assert(decimal(n) == decimal(n / 10).push(digit_char(n % 10)));
        assert(p =~= seq![digit_char(n / 10), digit_char(n % 10)]);
        assert(p.drop_last() =~= seq![digit_char(n / 10)]);
        assert(seq![digit_char(n / 10)].drop_last() =~= Seq::<char>::empty());
    }
    reveal_with_fuel(digits_value, 3);
    assert(digits_value(p) == digits_value(p.drop_last()) * 10 + digit_value(p.last()));
    assert(p[0] != '+');
}

/// A generated Season 0 name starts with the series name, ends with
/// `.mp4`, and holds the code `S00E` followed by the episode number in two
/// digits; a first capture holding those two digits gives the number back.
pub proof fn law_generated_name_holds_the_episode(series: Seq<char>, number: u8, title: Seq<char>)
    requires
        number < 100,
    ensures
        season_zero_filename(series, number, title).subrange(0, series.len() as int) == series,
        ends_with_seq(season_zero_filename(series, number, title), ".mp4"@),
        contains_seq(
            season_zero_filename(series, number, title),
            "S00E"@ + decimal_padded(number as nat, 2),
        ),
        episode_from_captures(seq![Some(decimal_padded(number as nat, 2))]) == Some(number),
{
    reveal_strlit(" - S00E");
    reveal_strlit("S00E");
    reveal_strlit(" - ");
    let f = season_zero_filename(series, number, title);
    let code = "S00E"@ + decimal_padded(number as nat, 2);
    let tail = " - "@ + sanitized(title) + ".mp4"@;
    assert(" - S00E"@ =~= " - "@ + "S00E"@);
    assert(f =~= (series + " - "@) + code + tail);
    lemma_contains_middle(series + " - "@, code, tail);
    assert(f.subrange(0, series.len() as int) =~= series);
    reveal_strlit(".mp4");
    assert(f.skip(f.len() - 4) =~= ".mp4"@);
    law_two_digit_code(number as nat);
    let caps = seq![Some(decimal_padded(number as nat, 2))];
    assert(caps[0] == Some(decimal_padded(number as nat, 2)));
}

/// Handles scanning and importing of local Season 0 files.
pub struct Season0Importer;

impl Season0Importer {
    /// The episode number held by the first match's capture, when it parses
    /// as a `u8`.
    pub fn episode_number_from_captures(caps: &Vec<Option<String>>) -> (r: Option<u8>)
        ensures
            r == episode_from_captures(caps.deep_view()),
    {
        if caps.len() == 0 {
            return None;
        }
        match &caps[0] {
            Some(t) => {
                let digits = chars_of(t.as_str());
                assert(caps.deep_view()[0] == Some(t@));
                match parse_unsigned_chars(&digits, 255) {
                    Some(n) => Some(n as u8),
                    None => None,
                }
            },
            None => {
                assert(caps.deep_view()[0] is None);
                None
            },
        }
    }

    /// The episode number of an `S00Exx` code in a file name (any case).
    pub fn extract_episode_number(filename: &str) -> (r: Option<u8>)
        ensures
            r == episode_from_captures(group1_captures(season_zero_code_pattern(), filename@)),
    {
        let caps = captures_group1("(?i)S00E(\\d{1,2})", filename);
        Self::episode_number_from_captures(&caps)
    }

    /// Replaces each of `/ \ : * ? " < > |` by `_`.
    pub fn sanitize_filename(name: &str) -> (r: String)
        ensures
            r@ == sanitized(name@),
    {
        let cs = chars_of(name);
        let mut out: Vec<char> = Vec::new();
        let mut i: usize = 0;
        while i < cs.len()
            invariant
                i <= cs.len(),
                out@ == sanitized(cs@.take(i as int)),
            decreases cs.len() - i,
        {
            let c = cs[i];
            let d = if c == '/' || c == '\\' || c == ':' || c == '*' || c == '?' || c == '"' || c
                == '<' || c == '>' || c == '|' {
                '_'
            } else {
                c
            };
            out.push(d);
            i = i + 1;
            assert(out@ =~= sanitized(cs@.take(i as int)));
        }
        assert(cs@.take(cs.len() as int) =~= cs@);
        string_of(&out)
    }

    /// The standard Season 0 file name:
    /// `{series} - S00E{number:02} - {sanitized title}.mp4`.
    pub fn generate_season_zero_filename(
        series_name: &str,
        episode_number: u8,
        episode_title: &str,
    ) -> (r: String)
        ensures
            r@ == season_zero_filename(series_name@, episode_number, episode_title@),
    {
        let title = Self::sanitize_filename(episode_title);
        let title_chars = chars_of(title.as_str());
        let mut out: Vec<char> = Vec::new();
        push_str(&mut out, series_name);
        push_str(&mut out, " - S00E");
        push_decimal_padded(&mut out, episode_number as u64, 2);
        push_str(&mut out, " - ");
        push_chars(&mut out, &title_chars);
        push_str(&mut out, ".mp4");
        string_of(&out)
    }

    /// Whether a directory entry of the series folder, by its name, is a
    /// Season 0 file to import.
    pub fn is_season_zero_candidate(name: &str) -> (r: bool)
        ensures
            r == is_season_zero_candidate(name@),
    {
        let n = chars_of(name);
        if equals_str(&n, "Season 00") {
            return false;
        }
        if !SeasonPackProcessor::is_video_file(name) {
            return false;
        }
        let caps = captures_group1("(?i)S00E(\\d{1,2})", name);
        caps.len() > 0
    }
}

/// The running tally of an import of local Season 0 files: the episode
/// numbers already taken, and how many files were imported or skipped.
pub struct ImportTally {
    pub seen: Vec<u8>,
    pub imported: usize,
    pub skipped: usize,
}

impl ImportTally {
    /// A tally before any file.
    pub fn new() -> (r: ImportTally)
        ensures
            r.seen@ == Seq::<u8>::empty(),
            r.imported == 0,
            r.skipped == 0,
    {
        ImportTally { seen: Vec::new(), imported: 0, skipped: 0 }
    }

    /// Takes a file with the given episode number: the first file of each
    /// number is to be imported (the number is recorded), a later one is
    /// skipped as a duplicate.
    pub fn take_episode(&mut self, episode: u8) -> (r: bool)
        requires
            old(self).skipped < usize::MAX,
        ensures
            r == !old(self).seen@.contains(episode),
            r ==> final(self).seen@ == old(self).seen@.push(episode) && final(self).skipped
                == old(self).skipped,
            !r ==> final(self).seen@ == old(self).seen@ && final(self).skipped == old(
                self,
            ).skipped + 1,
            final(self).imported == old(self).imported,
    {
        let mut i: usize = 0;
        while i < self.seen.len()
            invariant
                i <= self.seen.len(),
                self.seen@ == old(self).seen@,
                self.skipped == old(self).skipped,
                self.imported == old(self).imported,
                old(self).skipped < usize::MAX,
                forall|k: int| 0 <= k < i ==> self.seen@[k] != episode,
            decreases self.seen.len() - i,
        {
            if self.seen[i] == episode {
                assert(self.seen@[i as int] == episode);
                self.skipped = self.skipped + 1;
                return false;
            }
            i = i + 1;
        }
        self.seen.push(episode);
        true
    }

    /// Records the outcome of a taken file's import: imported, or
    /// skipped when the import failed.
    pub fn record(&mut self, imported: bool)
        requires
            old(self).imported < usize::MAX,
            old(self).skipped < usize::MAX,
        ensures
            final(self).seen@ == old(self).seen@,
            imported ==> final(self).imported == old(self).imported + 1 && final(self).skipped
                == old(self).skipped,
            !imported ==> final(self).skipped == old(self).skipped + 1 && final(self).imported
                == old(self).imported,
    {
        if imported {
            self.imported = self.imported + 1;
        } else {
            self.skipped = self.skipped + 1;
        }
    }
}

} // verus!
