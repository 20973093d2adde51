use extras_fetcher::models::{
    all_sources, default_sources, ContentCategory, HardwareAccel, MediaType, MovieEntry,
    ProcessingMode, SeriesEntry, SeriesExtra, Source, SourceType, SpecialEpisode,
};
use std::path::PathBuf;

#[test]
fn test_movie_entry_display() {
    let entry = MovieEntry {
        path: PathBuf::from("/movies/The Matrix (1999)"),
        title: "The Matrix".to_string(),
        year: 1999,
        has_done_marker: false,
    };
    assert_eq!(entry.display_string(), "The Matrix (1999)");
}

#[test]
fn test_series_entry_display_with_year() {
    let entry = SeriesEntry {
        path: PathBuf::from("/series/Breaking Bad (2008)"),
        title: "Breaking Bad".to_string(),
        year: Some(2008),
        has_done_marker: false,
        seasons: vec![1, 2, 3, 4, 5],
    };
    assert_eq!(entry.display_string(), "Breaking Bad (2008)");
}

#[test]
fn test_series_entry_display_without_year() {
    let entry = SeriesEntry {
        path: PathBuf::from("/series/Breaking Bad"),
        title: "Breaking Bad".to_string(),
        year: None,
        has_done_marker: false,
        seasons: vec![1, 2, 3, 4, 5],
    };
    assert_eq!(entry.display_string(), "Breaking Bad");
}

#[test]
fn test_series_extra_display() {
    let extra = SeriesExtra {
        series_id: "bb".to_string(),
        season_number: Some(1),
        category: ContentCategory::BehindTheScenes,
        title: "Making of Pilot".to_string(),
        url: "https://example.com/video".to_string(),
        source_type: SourceType::YouTube,
        local_path: None,
        duration_secs: None,
    };
    assert_eq!(
        extra.display_string(),
        "S01 - Making of Pilot - Behind the Scenes (YouTube)"
    );
}

#[test]
fn test_series_extra_display_series_level() {
    let extra = SeriesExtra {
        series_id: "bb".to_string(),
        season_number: None,
        category: ContentCategory::Trailer,
        title: "Series Trailer".to_string(),
        url: "https://example.com/video".to_string(),
        source_type: SourceType::TMDB,
        local_path: None,
        duration_secs: None,
    };
    assert_eq!(extra.display_string(), "Series - Series Trailer - Trailer (TMDB)");
}

#[test]
fn test_special_episode_display() {
    let episode = SpecialEpisode {
        episode_number: 5,
        title: "Holiday Special".to_string(),
        air_date: Some("2010-12-25".to_string()),
        url: None,
        local_path: None,
        tvdb_id: Some(123456),
    };
    assert_eq!(episode.display_string(), "S00E05 - Holiday Special");
}

#[test]
fn test_media_type_display() {
    assert_eq!(MediaType::Movie.display_string(), "Movie");
    assert_eq!(MediaType::Series.display_string(), "Series");
    assert_eq!(MediaType::Unknown.display_string(), "Unknown");
}

#[test]
fn test_processing_mode_display() {
    assert_eq!(ProcessingMode::Both.display_string(), "Both");
    assert_eq!(ProcessingMode::MoviesOnly.display_string(), "Movies Only");
    assert_eq!(ProcessingMode::SeriesOnly.display_string(), "Series Only");
}

#[test]
fn test_content_category_subdirectory() {
    assert_eq!(ContentCategory::Trailer.subdirectory(), "trailers");
    assert_eq!(ContentCategory::Featurette.subdirectory(), "featurettes");
    assert_eq!(ContentCategory::BehindTheScenes.subdirectory(), "behind the scenes");
    assert_eq!(ContentCategory::DeletedScene.subdirectory(), "deleted scenes");
    assert_eq!(ContentCategory::Interview.subdirectory(), "interviews");
    assert_eq!(ContentCategory::Short.subdirectory(), "shorts");
    assert_eq!(ContentCategory::Clip.subdirectory(), "clips");
    assert_eq!(ContentCategory::Scene.subdirectory(), "scenes");
    assert_eq!(ContentCategory::Extras.subdirectory(), "extras");
}

#[test]
fn test_content_category_display_new_variants() {
    assert_eq!(ContentCategory::Trailer.display_string(), "Trailer");
    assert_eq!(ContentCategory::Featurette.display_string(), "Featurette");
    assert_eq!(ContentCategory::BehindTheScenes.display_string(), "Behind the Scenes");
    assert_eq!(ContentCategory::DeletedScene.display_string(), "Deleted Scene");
    assert_eq!(ContentCategory::Interview.display_string(), "Interview");
    assert_eq!(ContentCategory::Short.display_string(), "Short");
    assert_eq!(ContentCategory::Clip.display_string(), "Clip");
    assert_eq!(ContentCategory::Scene.display_string(), "Scene");
    assert_eq!(ContentCategory::Extras.display_string(), "Extras");
}

#[test]
fn test_source_tier() {
    assert_eq!(Source::Tmdb.tier(), 1);
    assert_eq!(Source::Archive.tier(), 2);
    assert_eq!(Source::Dailymotion.tier(), 2);
    assert_eq!(Source::Youtube.tier(), 3);
    assert_eq!(Source::Vimeo.tier(), 2);
    assert_eq!(Source::Bilibili.tier(), 3);
}

#[test]
fn test_source_type_tier() {
    assert_eq!(SourceType::TMDB.tier(), 1);
    assert_eq!(SourceType::KinoCheck.tier(), 1);
    assert_eq!(SourceType::ArchiveOrg.tier(), 2);
    assert_eq!(SourceType::Bilibili.tier(), 3);
}

#[test]
fn test_default_sources() {
    let sources = default_sources();
    assert_eq!(sources.len(), 4);
    assert!(sources.contains(&Source::Tmdb));
    assert!(sources.contains(&Source::Archive));
    assert!(sources.contains(&Source::Dailymotion));
    assert!(sources.contains(&Source::Youtube));
    assert!(!sources.contains(&Source::Vimeo));
    assert!(!sources.contains(&Source::Bilibili));
}

#[test]
fn test_all_sources_include_vimeo() {
    let sources = all_sources();
    assert!(sources.contains(&Source::Vimeo));
    assert_eq!(sources.len(), 5);
}

#[test]
fn test_source_display() {
    assert_eq!(Source::Tmdb.display_string(), "tmdb");
    assert_eq!(Source::Youtube.display_string(), "youtube");
    assert_eq!(Source::Dailymotion.display_string(), "dailymotion");
}

#[test]
fn test_source_type_new_variants_display() {
    assert_eq!(SourceType::Dailymotion.display_string(), "Dailymotion");
    assert_eq!(SourceType::KinoCheck.display_string(), "KinoCheck");
    assert_eq!(SourceType::Vimeo.display_string(), "Vimeo");
    assert_eq!(SourceType::Bilibili.display_string(), "Bilibili");
}

#[test]
fn test_hardware_accel_display() {
    assert_eq!(HardwareAccel::Nvenc.display_string(), "NVIDIA NVENC");
    assert_eq!(HardwareAccel::Qsv.display_string(), "Intel Quick Sync");
    assert_eq!(HardwareAccel::Software.display_string(), "Software");
}
