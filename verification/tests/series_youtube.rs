use extras_fetcher::models::ContentCategory;
use extras_fetcher::series_youtube::YoutubeSeriesDiscoverer;

#[test]
fn test_series_query_construction_with_year() {
    let queries = YoutubeSeriesDiscoverer::build_series_search_queries("Breaking Bad", Some(2008));
    assert_eq!(queries.len(), 3);
    assert!(queries[0].0.contains("Breaking Bad"));
    assert!(queries[0].0.contains("2008"));
    assert!(queries[0].0.contains("interview"));
}

#[test]
fn test_series_query_construction_without_year() {
    let queries = YoutubeSeriesDiscoverer::build_series_search_queries("Breaking Bad", None);
    assert_eq!(queries.len(), 3);
    assert!(queries[0].0.contains("Breaking Bad"));
    assert!(!queries[0].0.contains("cast interview cast interview"));
}

#[test]
fn test_season_query_construction_with_year() {
    let queries =
        YoutubeSeriesDiscoverer::build_season_search_queries("Breaking Bad", Some(2008), 1);
    assert_eq!(queries.len(), 3);
    assert!(queries[0].0.contains("Breaking Bad"));
    assert!(queries[0].0.contains("2008"));
    assert!(queries[0].0.contains("season 1"));
}

#[test]
fn test_season_query_construction_without_year() {
    let queries = YoutubeSeriesDiscoverer::build_season_search_queries("Breaking Bad", None, 5);
    assert_eq!(queries.len(), 3);
    assert!(queries[0].0.contains("Breaking Bad"));
    assert!(queries[0].0.contains("season 5"));
}

#[test]
fn test_season_query_construction_high_season_number() {
    let queries =
        YoutubeSeriesDiscoverer::build_season_search_queries("Game of Thrones", Some(2011), 8);
    assert_eq!(queries.len(), 3);
    assert!(queries[0].0.contains("season 8"));
}

#[test]
fn test_duration_validation() {
    assert!(YoutubeSeriesDiscoverer::is_duration_valid(30));
    assert!(YoutubeSeriesDiscoverer::is_duration_valid(600));
    assert!(YoutubeSeriesDiscoverer::is_duration_valid(1200));
    assert!(!YoutubeSeriesDiscoverer::is_duration_valid(29));
    assert!(!YoutubeSeriesDiscoverer::is_duration_valid(1201));
    assert!(!YoutubeSeriesDiscoverer::is_duration_valid(0));
}

#[test]
fn test_youtube_short_detection() {
    assert!(YoutubeSeriesDiscoverer::is_youtube_short(30, 1080, 1920));
    assert!(!YoutubeSeriesDiscoverer::is_youtube_short(60, 1080, 1920));
    assert!(!YoutubeSeriesDiscoverer::is_youtube_short(30, 1920, 1080));
    assert!(!YoutubeSeriesDiscoverer::is_youtube_short(30, 1080, 1080));
}

#[test]
fn test_should_include_video_basic() {
    assert!(YoutubeSeriesDiscoverer::should_include_video(
        "Breaking Bad Season 1 Behind the Scenes",
        "Breaking Bad",
        600,
        1920,
        1080
    ));
}

#[test]
fn test_should_include_video_missing_title() {
    assert!(!YoutubeSeriesDiscoverer::should_include_video(
        "Game of Thrones Behind the Scenes",
        "Breaking Bad",
        600,
        1920,
        1080
    ));
}

#[test]
fn test_should_include_video_invalid_duration() {
    assert!(!YoutubeSeriesDiscoverer::should_include_video(
        "Breaking Bad Behind the Scenes",
        "Breaking Bad",
        20,
        1920,
        1080
    ));
    assert!(!YoutubeSeriesDiscoverer::should_include_video(
        "Breaking Bad Behind the Scenes",
        "Breaking Bad",
        2000,
        1920,
        1080
    ));
}

#[test]
fn test_should_include_video_excluded_keywords() {
    assert!(!YoutubeSeriesDiscoverer::should_include_video(
        "Breaking Bad Review",
        "Breaking Bad",
        600,
        1920,
        1080
    ));
    assert!(!YoutubeSeriesDiscoverer::should_include_video(
        "Breaking Bad Reaction",
        "Breaking Bad",
        600,
        1920,
        1080
    ));
}

#[test]
fn test_should_include_video_youtube_short() {
    assert!(!YoutubeSeriesDiscoverer::should_include_video(
        "Breaking Bad Behind the Scenes",
        "Breaking Bad",
        30,
        1080,
        1920
    ));
}

#[test]
fn series_queries_cover_three_categories_in_order() {
    let q = YoutubeSeriesDiscoverer::build_series_search_queries("Lost", Some(2004));
    assert_eq!(q[0].1, ContentCategory::Interview);
    assert_eq!(q[1].1, ContentCategory::BehindTheScenes);
    assert_eq!(q[2].1, ContentCategory::Featurette);
    assert!(q[1].0.contains("behind the scenes"));
    assert!(q[2].0.contains("featurette"));
}

#[test]
fn search_results_keep_matching_lines_only() {
    let out = String::from("{\"title\":\"Lost cast interview\",\"webpage_url\":\"https://y/1\",\"duration\":300,\"width\":1920,\"height\":1080}\ngarbage\n{\"title\":\"Other show interview\",\"webpage_url\":\"https://y/2\",\"duration\":300}\n{\"title\":\"Lost review\",\"webpage_url\":\"https://y/3\",\"duration\":300}\n");
    let r = YoutubeSeriesDiscoverer::search_results(&out, "Lost", ContentCategory::Interview);
    assert_eq!(r.len(), 1);
    assert_eq!(r[0].url, "https://y/1");
    assert_eq!(r[0].title, "Lost cast interview");
}
