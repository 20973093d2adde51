//! Downloading with `yt-dlp`: the command for one video, the hash-tagged
//! file names, picking the downloaded file, cleaning its name, and which
//! leftovers of a failed download to remove.
use vstd::prelude::*;
use vstd::string::{StrSliceExecFns, StringExecFns};
use std::collections::hash_map::DefaultHasher;
use std::hash::Hasher;
use vstd::std_specs::hash::DefaultHasherAdditionalSpecFns;
use std::path::PathBuf;
use crate::text::{
    chars_of, contains, contains_seq, contains_str, decimal, ends_with, ends_with_seq, hex_padded,
    lowercase, push_chars, push_decimal, push_hex_padded, push_str, replace, replace_seq,
    split_whitespace, split_ws, str_lowercase, string_of, utf8_len, utf8_longer_than,
};

verus! {

/// What a `DefaultHasher` holds (as vstd models it: the writes made so far)
/// after a text is fed into it with `<str as Hash>::hash`, given what it
/// held before.
pub uninterp spec fn hasher_fed_text(state: Seq<Seq<u8>>, text: Seq<char>) -> Seq<Seq<u8>>;

/// `<str as Hash>::hash`: feeds a text into a hasher. The hasher's new
/// contents are named `hasher_fed_text` of its old contents and the text:
/// feeding is deterministic, and the bytes it writes are left unsaid.
#[verifier::external_body]
fn feed_text(text: &str, hasher: &mut DefaultHasher)
    ensures
        final(hasher)@ == hasher_fed_text(old(hasher)@, text@),
{
    std::hash::Hash::hash(text, hasher);
}

/// The hash of a URL: what a fresh `DefaultHasher` finishes with once the
/// URL's text is fed into it. Equal URLs have equal hashes.
pub open spec fn url_hash_value(url: Seq<char>) -> u64 {
    DefaultHasher::spec_finish(hasher_fed_text(Seq::empty(), url))
}

/// `_{hash:08x}`: the tag that makes a download's file name unique.
pub open spec fn hash_suffix_text(url_hash: u64) -> Seq<char> {
    "_"@ + hex_padded(url_hash as nat, 8)
}

/// What one character becomes in a file name cleaned for Windows: the
/// refused ASCII characters and their full-width forms a hyphen, a double
/// quote a single one, question marks nothing.
pub open spec fn windows_safe(c: char) -> Seq<char> {
    if c == '|' || c == '<' || c == '>' || c == ':' || c == '/' || c == '\\' || c == '*' {
        seq!['-']
    } else if c == '"' {
        seq!['\'']
    } else if c == '?' {
        seq![]
    } else if c == '｜' || c == '＜' || c == '＞' || c == '：' || c == '／' || c == '＼' || c
        == '＊' {
        seq!['-']
    } else if c == '？' {
        seq![]
    } else {
        seq![c]
    }
}

/// The file name cleaned character by character.
pub open spec fn windows_safe_name(s: Seq<char>) -> Seq<char>
    decreases s.len(),
{
    if s.len() == 0 {
        seq![]
    } else {
        windows_safe_name(s.drop_last()) + windows_safe(s.last())
    }
}

/// A character that Windows refuses in file names, or its full-width form.
pub open spec fn windows_refused(c: char) -> bool {
    c == '|' || c == '<' || c == '>' || c == ':' || c == '/' || c == '\\' || c == '*' || c == '"'
        || c == '?' || c == '｜' || c == '＜' || c == '＞' || c == '：' || c == '／' || c == '＼'
        || c == '＊' || c == '？'
}

/// A cleaned file name holds none of the refused characters, and cleaning
/// it again changes nothing.
pub proof fn law_windows_safe_name_is_clean(s: Seq<char>)
    ensures
        forall|i: int|
            0 <= i < windows_safe_name(s).len() ==> !windows_refused(
                #[trigger] windows_safe_name(s)[i],
            ),
        windows_safe_name(windows_safe_name(s)) == windows_safe_name(s),
    decreases s.len(),
{
    if s.len() > 0 {
        let p = s.drop_last();
        law_windows_safe_name_is_clean(p);
        let w = windows_safe_name(p);
        let t = windows_safe(s.last());
        assert forall|i: int| 0 <= i < (w + t).len() implies !windows_refused(#[trigger] (w + t)[i]) by {
            if i >= w.len() {
                assert((w + t)[i] == t[i - w.len()]);
            }
        }
        lemma_clean_text_unchanged(w + t);
    }
}

/// Cleaning a text that holds none of the refused characters changes
/// nothing.
proof fn lemma_clean_text_unchanged(s: Seq<char>)
    requires
        forall|i: int| 0 <= i < s.len() ==> !windows_refused(#[trigger] s[i]),
    ensures
        windows_safe_name(s) == s,
    decreases s.len(),
{
    if s.len() > 0 {
        let p = s.drop_last();
        assert forall|i: int| 0 <= i < p.len() implies !windows_refused(#[trigger] p[i]) by {
            assert(p[i] == s[i]);
        }
        lemma_clean_text_unchanged(p);
        assert(!windows_refused(s[s.len() - 1]));
        assert(s =~= p + seq![s.last()]);
    } else {
        assert(s =~= seq![]);
    }
}

/// The final file name of a download: the hash tag removed, then cleaned.
pub open spec fn clean_name(name: Seq<char>, suffix: Seq<char>) -> Seq<char> {
    windows_safe_name(
        if suffix.len() == 0 {
            name
        } else {
            replace_seq(name, suffix, ""@)
        },
    )
}

/// A leftover of a failed download: a file tagged with its hash, or a
/// `.part` or `.tmp` file.
pub open spec fn is_partial(name: Seq<char>, suffix: Seq<char>) -> bool {
    contains_seq(name, suffix) || ends_with_seq(name, ".part"@) || ends_with_seq(name, ".tmp"@)
}

/// Number of title words longer than three bytes that occur in the name.
pub open spec fn word_hits(words: Seq<Seq<char>>, name: Seq<char>) -> nat
    decreases words.len(),
{
    if words.len() == 0 {
        0
    } else {
        word_hits(words.drop_last(), name) + if utf8_len(words.last()) > 3 && contains_seq(
            name,
            words.last(),
        ) {
            1nat
        } else {
            0nat
        }
    }
}

/// How well a file name matches the expected title, both lowercased: the
/// number of the title's words longer than three bytes found in the name.
pub open spec fn title_match_score(title: Seq<char>, name: Seq<char>) -> nat {
    word_hits(split_ws(str_lowercase(title)), str_lowercase(name))
}

/// The position of the first name with the highest positive score among the
/// first `n` names, if any scores.
pub open spec fn best_scored(scores: Seq<nat>) -> Option<nat>
    decreases scores.len(),
{
    if scores.len() == 0 {
        None
    } else {
        let prev = best_scored(scores.drop_last());
        let k = (scores.len() - 1) as nat;
        match prev {
            Some(b) => if scores.last() > scores[b as int] {
                Some(k)
            } else {
                Some(b)
            },
            None => if scores.last() > 0 {
                Some(k)
            } else {
                None
            },
        }
    }
}

/// The scores of the names against a title.
pub open spec fn scores_of(title: Seq<char>, names: Seq<Seq<char>>) -> Seq<nat> {
    Seq::new(names.len(), |i: int| title_match_score(title, names[i]))
}

/// The position of the first name containing the hash tag.
pub open spec fn first_tagged(names: Seq<Seq<char>>, suffix: Seq<char>) -> Option<nat>
    decreases names.len(),
{
    if names.len() == 0 {
        None
    } else {
        match first_tagged(names.drop_last(), suffix) {
            Some(i) => Some(i),
            None => if contains_seq(names.last(), suffix) {
                Some((names.len() - 1) as nat)
            } else {
                None
            },
        }
    }
}

/// Which file a finished download left, among the files of its directory.
#[derive(Debug, Clone, Copy, PartialEq, Eq, Structural)]
pub enum DownloadedFile {
    /// The file carrying the download's hash tag (to be renamed).
    Tagged(usize),
    /// The only file of the directory.
    Only(usize),
    /// The file whose name best matches the title.
    BestMatch(usize),
    /// None stands out: take the most recently modified file.
    Newest,
}

/// The choice among files named `names`: the first tagged one; else the only
/// file; else the best title match; else the newest.
pub open spec fn downloaded_file(names: Seq<Seq<char>>, title: Seq<char>, suffix: Seq<char>) -> DownloadedFile {
    match first_tagged(names, suffix) {
        Some(i) => DownloadedFile::Tagged(i as usize),
        None => if names.len() == 1 {
            DownloadedFile::Only(0)
        } else {
            match best_scored(scores_of(title, names)) {
                Some(b) => DownloadedFile::BestMatch(b as usize),
                None => DownloadedFile::Newest,
            }
        },
    }
}

/// Downloads videos with `yt-dlp` into a temporary directory per movie.
pub struct Downloader {
    /// Base directory for temporary downloads
    pub temp_base: PathBuf,
    /// Time allowed for one download, in seconds
    pub download_timeout_secs: u64,
}

impl Downloader {
    /// A downloader into `temp_base` with the default five-minute timeout.
    pub fn new(temp_base: PathBuf) -> (r: Self)
        ensures
            r.temp_base == temp_base,
            r.download_timeout_secs == 300,
    {
        Downloader { temp_base, download_timeout_secs: 300 }
    }

    /// A downloader into `temp_base` with the given timeout in seconds.
    pub fn with_timeout(temp_base: PathBuf, timeout_secs: u64) -> (r: Self)
        ensures
            r.temp_base == temp_base,
            r.download_timeout_secs == timeout_secs,
    {
        Downloader { temp_base, download_timeout_secs: timeout_secs }
    }

    /// The hash that tags a video's download: the URL fed to a fresh
    /// `DefaultHasher`, finished.
    pub fn url_hash(url: &str) -> (r: u64)
        ensures
            r == url_hash_value(url@),
    {
        let mut hasher = DefaultHasher::new();
        feed_text(url, &mut hasher);
        hasher.finish()
    }

    /// The tag `_{hash:08x}` for a URL's hash.
    pub fn hash_suffix(url_hash: u64) -> (r: String)
        ensures
            r@ == hash_suffix_text(url_hash),
    {
        let mut v: Vec<char> = Vec::new();
        push_str(&mut v, "_");
        push_hex_padded(&mut v, url_hash, 8);
        string_of(&v)
    }

    /// The file-name template given to `yt-dlp`: `%(title)s_{hash:08x}.%(ext)s`.
    pub fn output_template_name(url_hash: u64) -> (r: String)
        ensures
            r@ == "%(title)s"@ + hash_suffix_text(url_hash) + ".%(ext)s"@,
    {
        let mut v: Vec<char> = Vec::new();
        push_str(&mut v, "%(title)s");
        push_str(&mut v, "_");
        push_hex_padded(&mut v, url_hash, 8);
        push_str(&mut v, ".%(ext)s");
        string_of(&v)
    }

    /// The `yt-dlp` arguments that download one URL to the template: no
    /// playlists, quiet, no warnings, JavaScript run by Node.js.
    pub fn download_args(template: &str, url: &str) -> (r: Vec<String>)
        ensures
            r.deep_view() == seq![
                "-o"@,
                template@,
                url@,
                "--no-playlist"@,
                "--quiet"@,
                "--no-warnings"@,
                "--js-runtimes"@,
                "node"@,
            ],
    {
        let mut args: Vec<String> = Vec::new();
        args.push(String::from_str("-o"));
        args.push(String::from_str(template));
        args.push(String::from_str(url));
        args.push(String::from_str("--no-playlist"));
        args.push(String::from_str("--quiet"));
        args.push(String::from_str("--no-warnings"));
        args.push(String::from_str("--js-runtimes"));
        args.push(String::from_str("node"));
        assert(args.deep_view() =~= seq![
            "-o"@,
            template@,
            url@,
            "--no-playlist"@,
            "--quiet"@,
            "--no-warnings"@,
            "--js-runtimes"@,
            "node"@,
        ]);
        args
    }

    /// The error recorded when a download runs out of time.
    pub fn timeout_message(&self) -> (r: String)
        ensures
            r@ == "Download timeout after "@ + decimal(self.download_timeout_secs as nat)
                + " seconds"@,
    {
        let mut v: Vec<char> = Vec::new();
        push_str(&mut v, "Download timeout after ");
        push_decimal(&mut v, self.download_timeout_secs);
        push_str(&mut v, " seconds");
        string_of(&v)
    }

    /// Cleans a file name for Windows: `| < > : / \ *` and their full-width
    /// forms become `-`, `"` becomes `'`, `?` and `？` are dropped.
    pub fn sanitize_filename(filename: &str) -> (r: String)
        ensures
            r@ == windows_safe_name(filename@),
    {
        let cs = chars_of(filename);
        let mut out: Vec<char> = Vec::new();
        let mut i: usize = 0;
        while i < cs.len()
            invariant
                i <= cs.len(),
                cs@ == filename@,
                out@ == windows_safe_name(cs@.take(i as int)),
            decreases cs.len() - i,
        {
            let c = cs[i];
            let ghost before = out@;
            if c == '|' || c == '<' || c == '>' || c == ':' || c == '/' || c == '\\' || c == '*' {
                out.push('-');
            } else if c == '"' {
                out.push('\'');
            } else if c == '?' {
            } else if c == '｜' || c == '＜' || c == '＞' || c == '：' || c == '／' || c == '＼'
                || c == '＊' {
                out.push('-');
            } else if c == '？' {
            } else {
                out.push(c);
            }
            assert(cs@.take(i + 1).drop_last() =~= cs@.take(i as int));
            assert(out@ =~= before + windows_safe(c));
            i = i + 1;
        }
        assert(cs@.take(cs.len() as int) =~= cs@);
        string_of(&out)
    }

    /// The final name of a downloaded file: the hash tag removed, then
    /// cleaned for Windows.
    pub fn clean_filename(filename: &str, hash_suffix: &str) -> (r: String)
        ensures
            r@ == clean_name(filename@, hash_suffix@),
    {
        if hash_suffix.unicode_len() == 0 {
            return Self::sanitize_filename(filename);
        }
        let name = chars_of(filename);
        let suffix = chars_of(hash_suffix);
        let empty: Vec<char> = Vec::new();
        assert(empty@ =~= ""@) by {
            reveal_strlit("");
        }
        let removed = replace(&name, &suffix, &empty);
        let removed_s = string_of(&removed);
        Self::sanitize_filename(removed_s.as_str())
    }

    /// Whether a file of the download directory is a leftover of the failed
    /// download tagged `hash_suffix`.
    pub fn is_partial_file(filename: &str, hash_suffix: &str) -> (r: bool)
        ensures
            r == is_partial(filename@, hash_suffix@),
    {
        let name = chars_of(filename);
        let suffix = chars_of(hash_suffix);
        contains(&name, &suffix) || ends_with(&name, ".part") || ends_with(&name, ".tmp")
    }

    /// How well a file name matches the expected title: the number of the
    /// lowercased title's words longer than three bytes found in the
    /// lowercased name.
    pub fn title_match_score(expected_title: &str, filename: &str) -> (r: usize)
        ensures
            r == title_match_score(expected_title@, filename@),
    {
        let t = lowercase(expected_title);
        let tc = chars_of(t.as_str());
        let f = lowercase(filename);
        let name = chars_of(f.as_str());
        let words = split_whitespace(&tc);
        let ghost ws = words.deep_view();
        let mut hits: usize = 0;
        let mut i: usize = 0;
        while i < words.len()
            invariant
                i <= words.len(),
                ws == words.deep_view(),
                ws == split_ws(str_lowercase(expected_title@)),
                name@ == str_lowercase(filename@),
                hits <= i,
                hits == word_hits(ws.take(i as int), name@),
            decreases words.len() - i,
        {
            assert(ws.take(i + 1).drop_last() =~= ws.take(i as int));
            assert(ws.take(i + 1).last() == words@[i as int]@);
            if utf8_longer_than(&words[i], 3) && contains(&name, &words[i]) {
                hits = hits + 1;
            }
            i = i + 1;
        }
        assert(ws.take(words.len() as int) =~= ws);
        hits
    }

    /// Which file a finished download left, given the names of the files in
    /// its directory: the first carrying the hash tag; otherwise the only
    /// file; otherwise the first with the best positive title match;
    /// otherwise the most recent one is to be taken.
    pub fn choose_downloaded_file(names: &Vec<String>, expected_title: &str, hash_suffix: &str) -> (r:
        DownloadedFile)
        ensures
            r == downloaded_file(names.deep_view(), expected_title@, hash_suffix@),
    {
        let ghost nv = names.deep_view();
        let suffix = chars_of(hash_suffix);
        let mut i: usize = 0;
        while i < names.len()
            invariant
                i <= names.len(),
                nv == names.deep_view(),
                suffix@ == hash_suffix@,
                first_tagged(nv.take(i as int), hash_suffix@) is None,
            decreases names.len() - i,
        {
            assert(nv.take(i + 1).drop_last() =~= nv.take(i as int));
            let n = chars_of(names[i].as_str());
            if contains(&n, &suffix) {
                proof {
                    lemma_first_tagged_prefix(nv, hash_suffix@, i as int);
                }
                return DownloadedFile::Tagged(i);
            }
            i = i + 1;
        }
        assert(nv.take(names.len() as int) =~= nv);
        if names.len() == 1 {
            return DownloadedFile::Only(0);
        }
        let ghost scores = scores_of(expected_title@, nv);
        let mut best: Option<usize> = None;
        let mut best_score: usize = 0;
        let mut j: usize = 0;
        while j < names.len()
            invariant
                j <= names.len(),
                nv == names.deep_view(),
                scores == scores_of(expected_title@, nv),
                best_scored(scores.take(j as int)) == (match best {
                    Some(b) => Some(b as nat),
                    None => None::<nat>,
                }),
                match best {
                    Some(b) => b < j && best_score == scores[b as int] && best_score > 0,
                    None => best_score == 0,
                },
            decreases names.len() - j,
        {
            let s = Self::title_match_score(expected_title, names[j].as_str());
            assert(scores.take(j + 1).drop_last() =~= scores.take(j as int));
            assert(scores.take(j + 1).last() == s);
            proof {
                match best {
                    Some(b) => {
                        assert(scores.take(j as int)[b as int] == scores[b as int]);
                    },
                    None => {},
                }
            }
            if s > best_score {
                best = Some(j);
                best_score = s;
            }
            j = j + 1;
        }
        assert(scores.take(names.len() as int) =~= scores);
        match best {
            Some(b) => DownloadedFile::BestMatch(b),
            None => DownloadedFile::Newest,
        }
    }
}

proof fn lemma_first_tagged_prefix(names: Seq<Seq<char>>, suffix: Seq<char>, i: int)
    requires
        0 <= i < names.len(),
        first_tagged(names.take(i), suffix) is None,
        contains_seq(names[i], suffix),
    ensures
        first_tagged(names, suffix) == Some(i as nat),
    decreases names.len(),
{
    assert(names.take(i + 1).drop_last() =~= names.take(i));
    if names.len() > i + 1 {
        assert(names.drop_last().take(i) =~= names.take(i));
        lemma_first_tagged_prefix(names.drop_last(), suffix, i);
    } else {
        assert(names.take(i + 1) =~= names);
    }
}

} // verus!
