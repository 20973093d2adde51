//! Bilibili discovery through `yt-dlp`: the searches (in Chinese), the
//! entries read from the output, and the sources kept from them.
use vstd::prelude::*;
use vstd::string::StringExecFns;
use crate::models::{ContentCategory, SourceType, VideoSource, VideoSourceView, video_views};
use crate::text::{
    chars_of, contains_seq, contains_str, decimal, push_decimal, push_str, split_lines, string_of,
    text_lines,
};
use crate::title_matching::{infer_category_from_title, inferred_category};
use crate::url_order::{first_of_each_url, keep_first_per_url};
use crate::ytdlp::{read_ytdlp_line, ytdlp_fields};

verus! {

/// `{title} {year} {suffix}`.
pub open spec fn bili_query(title: Seq<char>, year: u16, suffix: Seq<char>) -> Seq<char> {
    title + " "@ + decimal(year as nat) + " "@ + suffix
}

/// The searches for a movie with the category each stands for: deleted
/// scenes, behind the scenes, trailers, interviews, documentaries (filed as
/// featurettes) and on-set footage (behind the scenes).
pub open spec fn bili_search_queries(title: Seq<char>, year: u16) -> Seq<
    (Seq<char>, ContentCategory),
> {
    seq![
        (bili_query(title, year, "删除片段"@), ContentCategory::DeletedScene),
        (bili_query(title, year, "幕后花絮"@), ContentCategory::BehindTheScenes),
        (bili_query(title, year, "预告片"@), ContentCategory::Trailer),
        (bili_query(title, year, "访谈"@), ContentCategory::Interview),
        (bili_query(title, year, "纪录片"@), ContentCategory::Featurette),
        (bili_query(title, year, "花絮"@), ContentCategory::BehindTheScenes),
    ]
}

/// Title, duration and URL of the entry on one output line (empty texts and
/// zero where members are missing), or `None` when the line is not JSON.
pub open spec fn bili_entry(line: Seq<char>) -> Option<(Seq<char>, u32, Seq<char>)> {
    match ytdlp_fields(line) {
        Some(f) => Some(
            (
                match f.0 {
                    Some(t) => t,
                    None => ""@,
                },
                match f.2 {
                    Some(d) => d as u32,
                    None => 0,
                },
                match f.5 {
                    Some(u) => u,
                    None => ""@,
                },
            ),
        ),
        None => None,
    }
}

/// The entries of the output lines, in order, lines that are not JSON left
/// out.
pub open spec fn bili_entries(lines: Seq<Seq<char>>) -> Seq<(Seq<char>, u32, Seq<char>)>
    decreases lines.len(),
{
    if lines.len() == 0 {
        seq![]
    } else {
        let prev = bili_entries(lines.drop_last());
        match bili_entry(lines.last()) {
            Some(e) => prev.push(e),
            None => prev,
        }
    }
}

/// The source kept for an entry: its duration is from 30 seconds to 40
/// minutes and its URL is a bilibili.com one; filed under the category its
/// title names, else as extras.
pub open spec fn bili_source_of(e: (Seq<char>, u32, Seq<char>)) -> Option<VideoSourceView> {
    if 30 <= e.1 <= 2400 && contains_seq(e.2, "bilibili.com"@) {
        Some(
            VideoSourceView {
                url: e.2,
                source_type: SourceType::Bilibili,
                category: match inferred_category(e.0) {
                    Some(c) => c,
                    None => ContentCategory::Extras,
                },
                title: e.0,
                season_number: None,
                duration_secs: Some(e.1),
            },
        )
    } else {
        None
    }
}

/// The sources kept from a list of entries, in order.
pub open spec fn bili_sources(entries: Seq<(Seq<char>, u32, Seq<char>)>) -> Seq<VideoSourceView>
    decreases entries.len(),
{
    if entries.len() == 0 {
        seq![]
    } else {
        let prev = bili_sources(entries.drop_last());
        match bili_source_of(entries.last()) {
            Some(s) => prev.push(s),
            None => prev,
        }
    }
}

/// Bilibili content discoverer.
pub struct BilibiliDiscoverer {}

fn query_with(title: &str, year: u16, suffix: &str) -> (r: String)
    ensures
        r@ == bili_query(title@, year, suffix@),
{
    let mut v: Vec<char> = Vec::new();
    push_str(&mut v, title);
    push_str(&mut v, " ");
    push_decimal(&mut v, year as u64);
    push_str(&mut v, " ");
    push_str(&mut v, suffix);
    string_of(&v)
}

impl BilibiliDiscoverer {
    /// A new discoverer.
    pub fn new() -> (r: Self) {
        BilibiliDiscoverer {  }
    }

    /// The searches for a movie, each `{title} {year} {term}` with its
    /// category, for the terms 删除片段, 幕后花絮, 预告片, 访谈, 纪录片, 花絮.
    pub fn build_search_queries(title: &str, year: u16) -> (r: Vec<(String, ContentCategory)>)
        ensures
            r@.len() == 6,
            forall|i: int|
                0 <= i < 6 ==> (#[trigger] r@[i].0@, r@[i].1) == bili_search_queries(title@, year)[i],
    {
        let mut r: Vec<(String, ContentCategory)> = Vec::new();
        r.push((query_with(title, year, "删除片段"), ContentCategory::DeletedScene));
        r.push((query_with(title, year, "幕后花絮"), ContentCategory::BehindTheScenes));
        r.push((query_with(title, year, "预告片"), ContentCategory::Trailer));
        r.push((query_with(title, year, "访谈"), ContentCategory::Interview));
        r.push((query_with(title, year, "纪录片"), ContentCategory::Featurette));
        r.push((query_with(title, year, "花絮"), ContentCategory::BehindTheScenes));
        r
    }

    /// The arguments of the `yt-dlp` search for a query: a flat JSON dump of
    /// the top five Bilibili results without download.
    pub fn search_args(query: &str) -> (r: Vec<String>)
        ensures
            r.deep_view() == seq![
                "--dump-json"@,
                "--flat-playlist"@,
                "--no-download"@,
                "bilisearch5:"@ + query@,
            ],
    {
        let mut args: Vec<String> = Vec::new();
        args.push(String::from_str("--dump-json"));
        args.push(String::from_str("--flat-playlist"));
        args.push(String::from_str("--no-download"));
        let mut q: Vec<char> = Vec::new();
        push_str(&mut q, "bilisearch5:");
        push_str(&mut q, query);
        args.push(string_of(&q));
        assert(args.deep_view() =~= seq![
            "--dump-json"@,
            "--flat-playlist"@,
            "--no-download"@,
            "bilisearch5:"@ + query@,
        ]);
        args
    }

    /// Title, duration and URL of the entry on each line of the output, in
    /// order; lines that are not JSON are passed over.
    pub fn parse_json_lines(json_output: &str) -> (r: Vec<(String, u32, String)>)
        ensures
            r@.len() == bili_entries(text_lines(json_output@)).len(),
            forall|i: int|
                0 <= i < r@.len() ==> (#[trigger] r@[i].0@, r@[i].1, r@[i].2@) == bili_entries(
                    text_lines(json_output@),
                )[i],
    {
        let lines = split_lines(json_output);
        let mut out: Vec<(String, u32, String)> = Vec::new();
        let mut i: usize = 0;
        while i < lines.len()
            invariant
                i <= lines.len(),
                out@.len() == bili_entries(lines.deep_view().take(i as int)).len(),
                forall|k: int|
                    0 <= k < out@.len() ==> (#[trigger] out@[k].0@, out@[k].1, out@[k].2@)
                        == bili_entries(lines.deep_view().take(i as int))[k],
            decreases lines.len() - i,
        {
            assert(lines.deep_view().take(i + 1).drop_last() =~= lines.deep_view().take(i as int));
            assert(lines.deep_view().take(i + 1).last() == lines@[i as int]@);
            match read_ytdlp_line(lines[i].as_str()) {
                Some(f) => {
                    let (t, _, d, _, _, u) = f;
                    let title = match t {
                        Some(x) => x,
                        None => String::from_str(""),
                    };
                    let duration: u32 = match d {
                        Some(x) => x as u32,
                        None => 0,
                    };
                    let url = match u {
                        Some(x) => x,
                        None => String::from_str(""),
                    };
                    out.push((title, duration, url));
                },
                None => {},
            }
            i = i + 1;
        }
        assert(lines.deep_view().take(lines.len() as int) =~= lines.deep_view());
        out
    }

    /// The source kept for one entry, if its duration and URL qualify.
    pub fn source_from_entry(title: String, duration: u32, url: String) -> (r: Option<VideoSource>)
        ensures
            match r {
                Some(s) => bili_source_of((title@, duration, url@)) == Some(s@),
                None => bili_source_of((title@, duration, url@)) is None,
            },
    {
        if !(30 <= duration && duration <= 2400) {
            return None;
        }
        let u = chars_of(url.as_str());
        if !contains_str(&u, "bilibili.com") {
            return None;
        }
        let category = match infer_category_from_title(title.as_str()) {
            Some(c) => c,
            None => ContentCategory::Extras,
        };
        Some(
            VideoSource {
                url,
                source_type: SourceType::Bilibili,
                category,
                title,
                season_number: None,
                duration_secs: Some(duration),
            },
        )
    }

    /// The sources kept from a list of entries, in order.
    pub fn sources_from_entries(entries: Vec<(String, u32, String)>) -> (r: Vec<VideoSource>)
        ensures
            video_views(r@) == bili_sources(
                Seq::new(entries@.len(), |i: int| (entries@[i].0@, entries@[i].1, entries@[i].2@)),
            ),
    {
        let ghost all = Seq::new(
            entries@.len(),
            |i: int| (entries@[i].0@, entries@[i].1, entries@[i].2@),
        );
        let n = entries.len();
        let mut rest = entries;
        let mut out: Vec<VideoSource> = Vec::new();
        let mut i: usize = 0;
        while rest.len() > 0
            invariant
                i + rest.len() == n,
                n == all.len(),
                forall|k: int|
                    0 <= k < rest@.len() ==> (#[trigger] rest@[k].0@, rest@[k].1, rest@[k].2@)
                        == all[i + k],
                video_views(out@) == bili_sources(all.take(i as int)),
            decreases rest.len(),
        {
            let ghost old_rest = rest@;
            let (t, d, u) = rest.remove(0);
            proof {
                assert(all.take(i + 1).drop_last() =~= all.take(i as int));
                assert((old_rest[0].0@, old_rest[0].1, old_rest[0].2@) == all[i as int]);
                assert forall|k: int| 0 <= k < rest@.len() implies (
                #[trigger] rest@[k].0@, rest@[k].1, rest@[k].2@) == all[i + 1 + k] by {
                    assert(rest@[k] == old_rest[k + 1]);
                }
            }
            let ghost before = out@;
            match Self::source_from_entry(t, d, u) {
                Some(s) => {
                    out.push(s);
                    assert(video_views(out@) =~= video_views(before).push(s@));
                },
                None => {},
            }
            i = i + 1;
        }
        assert(all.take(n as int) =~= all);
        out
    }

    /// Keeps the first source of each URL; the rest keep their order.
    pub fn dedup_by_url(sources: Vec<VideoSource>) -> (r: Vec<VideoSource>)
        ensures
            video_views(r@) == first_of_each_url(video_views(sources@)),
    {
        keep_first_per_url(sources)
    }
}

} // verus!
