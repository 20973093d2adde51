use extras_fetcher::api_step::ApiStep;
use extras_fetcher::kinocheck::{
    KinoCheckDiscoverer, KINOCHECK_DAILY_LIMIT, KINOCHECK_WARN_THRESHOLD,
};
use extras_fetcher::models::{ContentCategory, SourceType};

#[test]
fn test_map_category_trailer() {
    let cats = vec!["Trailer".to_string()];
    assert_eq!(KinoCheckDiscoverer::map_category(&cats), ContentCategory::Trailer);
}

#[test]
fn test_map_category_featurette() {
    let cats = vec!["Featurette".to_string()];
    assert_eq!(KinoCheckDiscoverer::map_category(&cats), ContentCategory::Featurette);
}

#[test]
fn test_map_category_behind_the_scenes() {
    let cats = vec!["Behind the Scenes".to_string()];
    assert_eq!(
        KinoCheckDiscoverer::map_category(&cats),
        ContentCategory::BehindTheScenes
    );
}

#[test]
fn test_map_category_unknown_defaults_to_extras() {
    let cats = vec!["SomethingNew".to_string()];
    assert_eq!(KinoCheckDiscoverer::map_category(&cats), ContentCategory::Extras);
}

#[test]
fn test_map_category_empty_defaults_to_extras() {
    let cats: Vec<String> = vec![];
    assert_eq!(KinoCheckDiscoverer::map_category(&cats), ContentCategory::Extras);
}

#[test]
fn test_80_percent_warning_threshold() {
    assert_eq!(KINOCHECK_WARN_THRESHOLD, 800);
    assert_eq!(KINOCHECK_DAILY_LIMIT, 1_000);
    assert_eq!(KINOCHECK_WARN_THRESHOLD * 100 / KINOCHECK_DAILY_LIMIT, 80);
}

#[test]
fn map_category_reads_only_the_first_category() {
    let cats = vec!["Clip".to_string(), "Trailer".to_string()];
    assert_eq!(KinoCheckDiscoverer::map_category(&cats), ContentCategory::Extras);
}

#[test]
fn warning_fires_exactly_at_the_threshold() {
    assert!(!KinoCheckDiscoverer::should_warn(799));
    assert!(KinoCheckDiscoverer::should_warn(800));
    assert!(!KinoCheckDiscoverer::should_warn(801));
    assert_eq!(KinoCheckDiscoverer::usage_percent(800), 80);
    assert_eq!(KinoCheckDiscoverer::usage_percent(999), 99);
}

#[test]
fn kinocheck_not_found_is_no_video() {
    assert_eq!(KinoCheckDiscoverer::step_for_status(404, false), ApiStep::Nothing);
    assert_eq!(KinoCheckDiscoverer::step_for_status(429, false), ApiStep::RetryAfterPause);
    assert_eq!(KinoCheckDiscoverer::step_for_status(429, true), ApiStep::Nothing);
    assert_eq!(KinoCheckDiscoverer::step_for_status(200, true), ApiStep::ReadBody);
    assert_eq!(KinoCheckDiscoverer::step_for_status(500, false), ApiStep::Fail);
}

#[test]
fn trailer_source_builds_youtube_url() {
    let cats = vec!["Trailer".to_string()];
    let s = KinoCheckDiscoverer::trailer_source("QW9wNFpLYiY", "FIGHT CLUB Trailer".to_string(), &cats)
        .expect("valid id");
    assert_eq!(s.url, "https://www.youtube.com/watch?v=QW9wNFpLYiY");
    assert_eq!(s.source_type, SourceType::KinoCheck);
    assert_eq!(s.category, ContentCategory::Trailer);
    assert!(s.title.contains("FIGHT CLUB"));
}

#[test]
fn trailer_source_rejects_bad_ids() {
    let cats: Vec<String> = vec![];
    assert!(KinoCheckDiscoverer::trailer_source("short", "t".to_string(), &cats).is_none());
    assert!(KinoCheckDiscoverer::trailer_source("   ", "t".to_string(), &cats).is_none());
    assert!(KinoCheckDiscoverer::trailer_source("QW9wNFpLYiYx", "t".to_string(), &cats).is_none());
    let s = KinoCheckDiscoverer::trailer_source(" QW9wNFpLYiY ", "t".to_string(), &cats).unwrap();
    assert_eq!(s.url, "https://www.youtube.com/watch?v=QW9wNFpLYiY");
}

#[test]
fn movie_request_names_the_tmdb_id() {
    assert_eq!(
        KinoCheckDiscoverer::movie_url(550),
        "https://api.kinocheck.de/movies?tmdb_id=550"
    );
}
