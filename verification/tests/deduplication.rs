use extras_fetcher::deduplication::{deduplicate, deduplicate_series, source_order};
use extras_fetcher::fuzzy_matching::FuzzyMatcher;
use extras_fetcher::models::{ContentCategory, SeriesExtra, Source, SourceType, VideoSource};

fn make_source(title: &str, source_type: SourceType, duration: Option<u32>) -> VideoSource {
    VideoSource {
        url: format!("https://example.com/{}", title.replace(' ', "_")),
        source_type,
        category: ContentCategory::Trailer,
        title: title.to_string(),
        season_number: None,
        duration_secs: duration,
    }
}

fn default_sources() -> Vec<Source> {
    vec![
        Source::Tmdb,
        Source::Archive,
        Source::Dailymotion,
        Source::Youtube,
    ]
}

#[test]
fn test_no_duplicates_returns_unchanged() {
    let sources = vec![
        make_source("Iron Man Trailer", SourceType::TMDB, Some(120)),
        make_source("Behind the Scenes", SourceType::YouTube, Some(300)),
        make_source("Deleted Scene 1", SourceType::ArchiveOrg, Some(180)),
    ];
    let (result, removed) = deduplicate(sources, &default_sources());
    assert_eq!(result.len(), 3);
    assert_eq!(removed, 0);
}

#[test]
fn test_title_and_duration_match_removes_lower_tier() {
    let sources = vec![
        make_source("Iron Man Official Trailer", SourceType::TMDB, Some(120)),
        make_source("Iron Man Official Trailer", SourceType::YouTube, Some(125)),
    ];
    let (result, removed) = deduplicate(sources, &default_sources());
    assert_eq!(result.len(), 1);
    assert_eq!(removed, 1);
    assert_eq!(result[0].source_type, SourceType::TMDB);
}

#[test]
fn test_high_similarity_ignores_duration() {
    let sources = vec![
        make_source("Iron Man Trailer", SourceType::TMDB, Some(120)),
        make_source("Iron Man Trailer", SourceType::YouTube, Some(600)),
    ];
    let (result, removed) = deduplicate(sources, &default_sources());
    assert_eq!(result.len(), 1);
    assert_eq!(removed, 1);
    assert_eq!(result[0].source_type, SourceType::TMDB);
}

#[test]
fn test_same_tier_prefers_earlier_in_source_list() {
    let sources = vec![
        make_source("Making of Iron Man", SourceType::Dailymotion, Some(300)),
        make_source("Making of Iron Man", SourceType::ArchiveOrg, Some(305)),
    ];
    let active = vec![
        Source::Tmdb,
        Source::Archive,
        Source::Dailymotion,
        Source::Youtube,
    ];
    let (result, removed) = deduplicate(sources, &active);
    assert_eq!(result.len(), 1);
    assert_eq!(removed, 1);
    assert_eq!(result[0].source_type, SourceType::ArchiveOrg);
}

#[test]
fn test_below_threshold_not_deduped() {
    let sources = vec![
        make_source("Iron Man Trailer", SourceType::TMDB, Some(120)),
        make_source("Thor Ragnarok Trailer", SourceType::YouTube, Some(120)),
    ];
    let (result, removed) = deduplicate(sources, &default_sources());
    assert_eq!(result.len(), 2);
    assert_eq!(removed, 0);
}

#[test]
fn test_duration_outside_tolerance_not_deduped() {
    let t1 = "Iron Man Official Trailer";
    let t2 = "Iron Man Official Trail";
    let similarity = FuzzyMatcher::get_similarity_score(t1, t2);
    assert!(
        similarity >= 80 && similarity < 95,
        "Test precondition: titles must be 80-94% similar, got {}%",
        similarity
    );
    let sources = vec![
        make_source(t1, SourceType::TMDB, Some(120)),
        make_source(t2, SourceType::YouTube, Some(200)),
    ];
    let (result, removed) = deduplicate(sources, &default_sources());
    assert_eq!(result.len(), 2, "Should not dedup when duration outside tolerance");
    assert_eq!(removed, 0);
}

#[test]
fn test_none_duration_skips_duration_check() {
    let sources = vec![
        make_source("Iron Man Trailer", SourceType::TMDB, None),
        make_source("Iron Man Trailer", SourceType::YouTube, Some(120)),
    ];
    let (result, removed) = deduplicate(sources, &default_sources());
    assert_eq!(result.len(), 1);
    assert_eq!(removed, 1);

    let sources2 = vec![
        make_source("Iron Man Trailer", SourceType::TMDB, None),
        make_source("Iron Man Trailer", SourceType::YouTube, None),
    ];
    let (result2, removed2) = deduplicate(sources2, &default_sources());
    assert_eq!(result2.len(), 1);
    assert_eq!(removed2, 1);

    let t1 = "Iron Man Official Trailer";
    let t2 = "Iron Man Official Trail";
    let similarity = FuzzyMatcher::get_similarity_score(t1, t2);
    assert!(
        similarity >= 80 && similarity < 95,
        "Test precondition: titles must be 80-94% similar, got {}%",
        similarity
    );
    let sources3 = vec![
        make_source(t1, SourceType::TMDB, None),
        make_source(t2, SourceType::YouTube, None),
    ];
    let (result3, removed3) = deduplicate(sources3, &default_sources());
    assert_eq!(result3.len(), 2, "80-94% similar with None durations should not dedup");
    assert_eq!(removed3, 0);
}

#[test]
fn test_empty_input_returns_empty() {
    let (result, removed) = deduplicate(vec![], &default_sources());
    assert_eq!(result.len(), 0);
    assert_eq!(removed, 0);
}

#[test]
fn test_series_dedup_works_same_as_movie() {
    let extras = vec![
        SeriesExtra {
            series_id: "bb".to_string(),
            season_number: None,
            category: ContentCategory::Trailer,
            title: "Breaking Bad Trailer".to_string(),
            url: "https://tmdb.com/trailer".to_string(),
            source_type: SourceType::TMDB,
            local_path: None,
            duration_secs: Some(120),
        },
        SeriesExtra {
            series_id: "bb".to_string(),
            season_number: None,
            category: ContentCategory::Trailer,
            title: "Breaking Bad Trailer".to_string(),
            url: "https://youtube.com/trailer".to_string(),
            source_type: SourceType::YouTube,
            local_path: None,
            duration_secs: Some(122),
        },
    ];
    let (result, removed) = deduplicate_series(extras, &default_sources());
    assert_eq!(result.len(), 1);
    assert_eq!(removed, 1);
    assert_eq!(result[0].source_type, SourceType::TMDB);
}

#[test]
fn test_multiple_duplicates_across_tiers() {
    let sources = vec![
        make_source("Iron Man Trailer", SourceType::YouTube, Some(120)),
        make_source("Iron Man Trailer", SourceType::TMDB, Some(118)),
        make_source("Iron Man Trailer", SourceType::ArchiveOrg, Some(121)),
    ];
    let (result, removed) = deduplicate(sources, &default_sources());
    assert_eq!(result.len(), 1);
    assert_eq!(removed, 2);
    assert_eq!(result[0].source_type, SourceType::TMDB);
}

#[test]
fn test_source_order_positions() {
    let active = default_sources();
    assert_eq!(source_order(&SourceType::TMDB, &active), 0);
    assert_eq!(source_order(&SourceType::YouTube, &active), 3);
    assert_eq!(source_order(&SourceType::Vimeo, &active), usize::MAX);
    assert_eq!(source_order(&SourceType::KinoCheck, &active), usize::MAX);
}

#[test]
fn test_duration_boundary_ten_percent() {
    // 80-94% similar titles; 100 vs 110 is exactly 10% of the longer? 10/110 < 10%, dedups
    let t1 = "Iron Man Official Trailer";
    let t2 = "Iron Man Official Trail";
    let (r, removed) = deduplicate(
        vec![make_source(t1, SourceType::TMDB, Some(100)), make_source(t2, SourceType::YouTube, Some(110))],
        &default_sources(),
    );
    assert_eq!(r.len(), 1);
    assert_eq!(removed, 1);
    // 100 vs 112: 12/112 > 10%, kept apart
    let (r2, removed2) = deduplicate(
        vec![make_source(t1, SourceType::TMDB, Some(100)), make_source(t2, SourceType::YouTube, Some(112))],
        &default_sources(),
    );
    assert_eq!(r2.len(), 2);
    assert_eq!(removed2, 0);
}
