//! Recognising season-pack archives, the video files inside them, and the
//! bonus content among those files.
use vstd::prelude::*;
use crate::models::ContentCategory;
use crate::text::{chars_of, contains_seq, contains_str, equals_str, lowercase, str_lowercase};

verus! {

/// What `Path::extension` gives for the path with the given text, as text:
/// `None` when the path has no extension or the extension is not valid
/// UTF-8 (`OsStr::to_str` fails).
pub uninterp spec fn path_extension(path: Seq<char>) -> Option<Seq<char>>;

/// Calls `std::path::Path::extension` on the path with the given text and
/// converts the extension to a `String`; the result is named
/// `path_extension` of the path's text.
#[verifier::external_body]
fn extension_of(path: &str) -> (r: Option<String>)
    ensures
        r.deep_view() == path_extension(path@),
{
    std::path::Path::new(path).extension().and_then(|e| e.to_str()).map(|e| e.to_string())
}

/// Lowercased extensions of the archive formats that can be unpacked.
pub open spec fn is_archive_ext(e: Seq<char>) -> bool {
    e == "zip"@ || e == "rar"@ || e == "7z"@ || e == "tar"@ || e == "gz"@ || e == "tgz"@
}

/// Lowercased extensions of video files.
pub open spec fn is_video_ext(e: Seq<char>) -> bool {
    e == "mp4"@ || e == "mkv"@ || e == "avi"@ || e == "mov"@ || e == "flv"@ || e == "wmv"@
        || e == "webm"@ || e == "m4v"@
}

/// The path's extension, lowercased, is an archive extension.
pub open spec fn path_is_archive(path: Seq<char>) -> bool {
    match path_extension(path) {
        Some(e) => is_archive_ext(str_lowercase(e)),
        None => false,
    }
}

/// The path's extension, lowercased, is a video extension.
pub open spec fn path_is_video(path: Seq<char>) -> bool {
    match path_extension(path) {
        Some(e) => is_video_ext(str_lowercase(e)),
        None => false,
    }
}

/// The bonus-content category that a lowercased file name announces, tried
/// from the most specific pattern down.
pub open spec fn bonus_category(lower: Seq<char>) -> Option<ContentCategory> {
    if contains_seq(lower, "behind the scenes"@) || contains_seq(lower, "behind_the_scenes"@) {
        Some(ContentCategory::BehindTheScenes)
    } else if contains_seq(lower, "deleted scene"@) || contains_seq(lower, "deleted_scene"@) {
        Some(ContentCategory::DeletedScene)
    } else if contains_seq(lower, "interview"@) {
        Some(ContentCategory::Interview)
    } else if contains_seq(lower, "featurette"@) {
        Some(ContentCategory::Featurette)
    } else if contains_seq(lower, "blooper"@) {
        Some(ContentCategory::Featurette)
    } else {
        None
    }
}

/// Handles season pack archives and their contents.
pub struct SeasonPackProcessor;

impl SeasonPackProcessor {
    /// Whether the path names an archive (zip, rar, 7z, tar, gz, tgz), by its
    /// extension, whatever its case.
    pub fn is_archive(path: &str) -> (r: bool)
        ensures
            r == path_is_archive(path@),
    {
        match extension_of(path) {
            Some(ext) => {
                let lower = lowercase(ext.as_str());
                let l = chars_of(lower.as_str());
                equals_str(&l, "zip") || equals_str(&l, "rar") || equals_str(&l, "7z")
                    || equals_str(&l, "tar") || equals_str(&l, "gz") || equals_str(&l, "tgz")
            },
            None => false,
        }
    }

    /// Whether the path names a video file (mp4, mkv, avi, mov, flv, wmv,
    /// webm, m4v), by its extension, whatever its case.
    pub fn is_video_file(path: &str) -> (r: bool)
        ensures
            r == path_is_video(path@),
    {
        match extension_of(path) {
            Some(ext) => {
                let lower = lowercase(ext.as_str());
                let l = chars_of(lower.as_str());
                equals_str(&l, "mp4") || equals_str(&l, "mkv") || equals_str(&l, "avi")
                    || equals_str(&l, "mov") || equals_str(&l, "flv") || equals_str(&l, "wmv")
                    || equals_str(&l, "webm") || equals_str(&l, "m4v")
            },
            None => false,
        }
    }

    /// Identifies bonus content by file name: behind the scenes, deleted
    /// scenes, interviews, featurettes, and bloopers (filed as featurettes),
    /// whatever the case.
    pub fn identify_bonus_content(filename: &str) -> (r: Option<ContentCategory>)
        ensures
            r == bonus_category(str_lowercase(filename@)),
    {
        let lower_s = lowercase(filename);
        let lower = chars_of(lower_s.as_str());
        if contains_str(&lower, "behind the scenes") || contains_str(&lower, "behind_the_scenes") {
            return Some(ContentCategory::BehindTheScenes);
        }
        if contains_str(&lower, "deleted scene") || contains_str(&lower, "deleted_scene") {
            return Some(ContentCategory::DeletedScene);
        }
        if contains_str(&lower, "interview") {
            return Some(ContentCategory::Interview);
        }
        if contains_str(&lower, "featurette") {
            return Some(ContentCategory::Featurette);
        }
        if contains_str(&lower, "blooper") {
            return Some(ContentCategory::Featurette);
        }
        None
    }

    /// How an archive is unpacked, by its extension whatever its case: zip
    /// with `unzip`, 7z with `7z`, rar with `unrar`, tar, gz and tgz with
    /// `tar`; another extension is refused, and a path without a readable
    /// extension is left as it is.
    pub fn extraction_plan(archive_path: &str) -> (r: ExtractionPlan)
        ensures
            r@ == extraction_plan(archive_path@),
    {
        match extension_of(archive_path) {
            Some(ext) => {
                let lower = lowercase(ext.as_str());
                let l = chars_of(lower.as_str());
                if equals_str(&l, "zip") {
                    ExtractionPlan::Unpack(Extractor::Unzip)
                } else if equals_str(&l, "7z") {
                    ExtractionPlan::Unpack(Extractor::SevenZip)
                } else if equals_str(&l, "rar") {
                    ExtractionPlan::Unpack(Extractor::Unrar)
                } else if equals_str(&l, "tar") || equals_str(&l, "gz") || equals_str(&l, "tgz") {
                    ExtractionPlan::Unpack(Extractor::Tar)
                } else {
                    ExtractionPlan::Unsupported(ext)
                }
            },
            None => ExtractionPlan::NothingToDo,
        }
    }
}

/// The program that unpacks an archive.
#[derive(Debug, Clone, Copy, PartialEq, Eq, Structural)]
pub enum Extractor {
    Unzip,
    SevenZip,
    Unrar,
    Tar,
}

/// What is done with an archive.
#[derive(Debug)]
pub enum ExtractionPlan {
    /// Unpack it with this program.
    Unpack(Extractor),
    /// Refuse it: its extension (as written) names no supported format.
    Unsupported(String),
    /// Do nothing: the path has no readable extension.
    NothingToDo,
}

/// Spec-level view of an extraction plan.
pub enum ExtractionPlanView {
    Unpack(Extractor),
    Unsupported(Seq<char>),
    NothingToDo,
}

impl View for ExtractionPlan {
    type V = ExtractionPlanView;

    open spec fn view(&self) -> ExtractionPlanView {
        match self {
            ExtractionPlan::Unpack(x) => ExtractionPlanView::Unpack(*x),
            ExtractionPlan::Unsupported(e) => ExtractionPlanView::Unsupported(e@),
            ExtractionPlan::NothingToDo => ExtractionPlanView::NothingToDo,
        }
    }
}

/// The plan for the path with the given text.
pub open spec fn extraction_plan(path: Seq<char>) -> ExtractionPlanView {
    match path_extension(path) {
        Some(e) => {
            let l = str_lowercase(e);
            if l == "zip"@ {
                ExtractionPlanView::Unpack(Extractor::Unzip)
            } else if l == "7z"@ {
                ExtractionPlanView::Unpack(Extractor::SevenZip)
            } else if l == "rar"@ {
                ExtractionPlanView::Unpack(Extractor::Unrar)
            } else if l == "tar"@ || l == "gz"@ || l == "tgz"@ {
                ExtractionPlanView::Unpack(Extractor::Tar)
            } else {
                ExtractionPlanView::Unsupported(e)
            }
        },
        None => ExtractionPlanView::NothingToDo,
    }
}

/// An archive is unpacked exactly when it is recognised as one.
pub proof fn law_archives_are_unpacked(path: Seq<char>)
    ensures
        (extraction_plan(path) is Unpack) == path_is_archive(path),
{
}


/// The bonus category a file name announces, by its lowercased form, tried
/// in order: "behind the scenes" or "behind_the_scenes"; "deleted scene" or
/// "deleted_scene"; "interview"; "featurette"; "blooper" (filed as a
/// featurette); none without any of these.
pub proof fn law_bonus_category(filename: Seq<char>)
    ensures
        ({
            let l = str_lowercase(filename);
            let bts = contains_seq(l, "behind the scenes"@) || contains_seq(l, "behind_the_scenes"@);
            let ds = contains_seq(l, "deleted scene"@) || contains_seq(l, "deleted_scene"@);
            let iv = contains_seq(l, "interview"@);
            let fe = contains_seq(l, "featurette"@);
            let bl = contains_seq(l, "blooper"@);
            &&& bts ==> bonus_category(l) == Some(ContentCategory::BehindTheScenes)
            &&& !bts && ds ==> bonus_category(l) == Some(ContentCategory::DeletedScene)
            &&& !bts && !ds && iv ==> bonus_category(l) == Some(ContentCategory::Interview)
            &&& !bts && !ds && !iv && (fe || bl) ==> bonus_category(l) == Some(
                ContentCategory::Featurette,
            )
            &&& !bts && !ds && !iv && !fe && !bl ==> bonus_category(l) is None
        }),
{
}


/// The archive extensions are zip, rar, 7z, tar, gz and tgz; the video
/// extensions mp4, mkv, avi, mov, flv, wmv, webm and m4v.
pub proof fn law_known_extensions(e: Seq<char>)
    ensures
        (e == "zip"@ || e == "rar"@ || e == "7z"@ || e == "tar"@ || e == "gz"@ || e == "tgz"@)
            == is_archive_ext(e),
        (e == "mp4"@ || e == "mkv"@ || e == "avi"@ || e == "mov"@ || e == "flv"@ || e == "wmv"@
            || e == "webm"@ || e == "m4v"@) == is_video_ext(e),
{
}

} // verus!
