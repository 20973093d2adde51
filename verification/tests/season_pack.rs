use extras_fetcher::models::ContentCategory;
use extras_fetcher::season_pack::{ExtractionPlan, Extractor, SeasonPackProcessor};

#[test]
fn test_is_archive_zip() {
    assert!(SeasonPackProcessor::is_archive("archive.zip"));
}

#[test]
fn test_is_archive_7z() {
    assert!(SeasonPackProcessor::is_archive("archive.7z"));
}

#[test]
fn test_is_archive_rar() {
    assert!(SeasonPackProcessor::is_archive("archive.rar"));
}

#[test]
fn test_is_archive_tar_gz() {
    assert!(SeasonPackProcessor::is_archive("archive.tar.gz"));
}

#[test]
fn test_is_archive_not_video() {
    assert!(!SeasonPackProcessor::is_archive("video.mp4"));
}

#[test]
fn test_identify_behind_the_scenes() {
    let category = SeasonPackProcessor::identify_bonus_content("behind the scenes.mp4");
    assert_eq!(category, Some(ContentCategory::BehindTheScenes));
}

#[test]
fn test_identify_deleted_scene() {
    let category = SeasonPackProcessor::identify_bonus_content("deleted_scene_01.mp4");
    assert_eq!(category, Some(ContentCategory::DeletedScene));
}

#[test]
fn test_identify_interview() {
    let category = SeasonPackProcessor::identify_bonus_content("cast_interview.mp4");
    assert_eq!(category, Some(ContentCategory::Interview));
}

#[test]
fn test_identify_featurette() {
    let category = SeasonPackProcessor::identify_bonus_content("featurette.mp4");
    assert_eq!(category, Some(ContentCategory::Featurette));
}

#[test]
fn test_identify_blooper() {
    let category = SeasonPackProcessor::identify_bonus_content("bloopers.mp4");
    assert_eq!(category, Some(ContentCategory::Featurette));
}

#[test]
fn test_identify_unknown_pattern() {
    let category = SeasonPackProcessor::identify_bonus_content("random_video.mp4");
    assert_eq!(category, None);
}

#[test]
fn test_identify_case_insensitive() {
    let category = SeasonPackProcessor::identify_bonus_content("BEHIND THE SCENES.mp4");
    assert_eq!(category, Some(ContentCategory::BehindTheScenes));
}

#[test]
fn archive_extensions_are_case_insensitive_and_need_a_dot() {
    assert!(SeasonPackProcessor::is_archive("A.ZIP"));
    assert!(SeasonPackProcessor::is_archive("pack.tgz"));
    assert!(!SeasonPackProcessor::is_archive("zip"));
    assert!(!SeasonPackProcessor::is_archive("notes.txt"));
}

#[test]
fn video_files_by_extension() {
    assert!(SeasonPackProcessor::is_video_file("a.mkv"));
    assert!(SeasonPackProcessor::is_video_file("b.MP4"));
    assert!(!SeasonPackProcessor::is_video_file("c.zip"));
}

#[test]
fn extraction_plan_follows_the_extension() {
    assert!(matches!(
        SeasonPackProcessor::extraction_plan("/tmp/Show.S01.Extras.ZIP"),
        ExtractionPlan::Unpack(Extractor::Unzip)
    ));
    assert!(matches!(SeasonPackProcessor::extraction_plan("pack.7z"), ExtractionPlan::Unpack(Extractor::SevenZip)));
    assert!(matches!(SeasonPackProcessor::extraction_plan("pack.rar"), ExtractionPlan::Unpack(Extractor::Unrar)));
    assert!(matches!(SeasonPackProcessor::extraction_plan("pack.tgz"), ExtractionPlan::Unpack(Extractor::Tar)));
    match SeasonPackProcessor::extraction_plan("disc.ISO") {
        ExtractionPlan::Unsupported(ext) => assert_eq!(ext, "ISO"),
        other => panic!("unexpected plan {:?}", other),
    }
    assert!(matches!(SeasonPackProcessor::extraction_plan("README"), ExtractionPlan::NothingToDo));
}
