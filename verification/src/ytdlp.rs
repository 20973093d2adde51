//! Reading the JSON lines that `yt-dlp --dump-json` prints, one video per
//! line.
use vstd::prelude::*;
use vstd::string::StringExecFns;

verus! {

/// What `serde_json` reads from one output line, parsed as a JSON value:
/// `None` when the line is not valid JSON; otherwise the `title` and
/// `webpage_url` members as text, the `duration`, `width` and `height`
/// members as unsigned integers, and the `url` member as text, each `None`
/// when the member is missing or not of that kind (`Value::as_str`,
/// `Value::as_u64`).
pub uninterp spec fn ytdlp_fields(line: Seq<char>) -> Option<
    (Option<Seq<char>>, Option<Seq<char>>, Option<u64>, Option<u64>, Option<u64>, Option<Seq<char>>),
>;

/// Parses the line with `serde_json::from_str::<serde_json::Value>` and reads
/// the six members; the result is named `ytdlp_fields` of the line.
#[verifier::external_body]
pub(crate) fn read_ytdlp_line(line: &str) -> (r: Option<
    (Option<String>, Option<String>, Option<u64>, Option<u64>, Option<u64>, Option<String>),
>)
    ensures
        r.deep_view() == ytdlp_fields(line@),
{
    let v: serde_json::Value = serde_json::from_str(line).ok()?;
    Some(
        (
            v["title"].as_str().map(|t| t.to_string()),
            v["webpage_url"].as_str().map(|t| t.to_string()),
            v["duration"].as_u64(),
            v["width"].as_u64(),
            v["height"].as_u64(),
            v["url"].as_str().map(|t| t.to_string()),
        ),
    )
}

/// One video of the search output, with the defaults for missing members.
pub struct YtdlpVideo {
    pub title: String,
    pub url: String,
    pub duration_secs: u32,
    pub width: u32,
    pub height: u32,
}

/// Spec-level view of a video entry.
pub struct YtdlpVideoView {
    pub title: Seq<char>,
    pub url: Seq<char>,
    pub duration_secs: u32,
    pub width: u32,
    pub height: u32,
}

impl View for YtdlpVideo {
    type V = YtdlpVideoView;

    open spec fn view(&self) -> YtdlpVideoView {
        YtdlpVideoView {
            title: self.title@,
            url: self.url@,
            duration_secs: self.duration_secs,
            width: self.width,
            height: self.height,
        }
    }
}

/// The video that the members read from a line describe: title `Unknown`,
/// an empty URL, duration 0 and a 1920x1080 frame where members are missing;
/// numbers are truncated to 32 bits as `as u32` does.
pub open spec fn video_of_fields(
    f: (Option<Seq<char>>, Option<Seq<char>>, Option<u64>, Option<u64>, Option<u64>, Option<Seq<char>>),
) -> YtdlpVideoView {
    YtdlpVideoView {
        title: match f.0 {
            Some(x) => x,
            None => "Unknown"@,
        },
        url: match f.1 {
            Some(x) => x,
            None => ""@,
        },
        duration_secs: match f.2 {
            Some(x) => x as u32,
            None => 0,
        },
        width: match f.3 {
            Some(x) => x as u32,
            None => 1920,
        },
        height: match f.4 {
            Some(x) => x as u32,
            None => 1080,
        },
    }
}

/// The video a line describes; `None` when the line is not JSON.
pub open spec fn video_of_line(line: Seq<char>) -> Option<YtdlpVideoView> {
    match ytdlp_fields(line) {
        Some(f) => Some(video_of_fields(f)),
        None => None,
    }
}

/// The video described by the members read from a line.
pub fn video_from_fields(
    fields: (Option<String>, Option<String>, Option<u64>, Option<u64>, Option<u64>, Option<String>),
) -> (r: YtdlpVideo)
    ensures
        r@ == video_of_fields(fields.deep_view()),
{
    let (t, u, d, w, h, _) = fields;
    let title = match t {
        Some(x) => x,
        None => String::from_str("Unknown"),
    };
    let url = match u {
        Some(x) => x,
        None => String::from_str(""),
    };
    let duration_secs: u32 = match d {
        Some(x) => x as u32,
        None => 0,
    };
    let width: u32 = match w {
        Some(x) => x as u32,
        None => 1920,
    };
    let height: u32 = match h {
        Some(x) => x as u32,
        None => 1080,
    };
    YtdlpVideo { title, url, duration_secs, width, height }
}

/// The video described by one line of `yt-dlp --dump-json` output, or `None`
/// when the line is not JSON (a blank line among them).
pub fn video_from_line(line: &str) -> (r: Option<YtdlpVideo>)
    ensures
        match r {
            Some(v) => video_of_line(line@) == Some(v@),
            None => video_of_line(line@) is None,
        },
{
    match read_ytdlp_line(line) {
        Some(fields) => Some(video_from_fields(fields)),
        None => None,
    }
}

} // verus!
