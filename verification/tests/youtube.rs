use extras_fetcher::models::{ContentCategory, SourceType};
use extras_fetcher::youtube::YoutubeDiscoverer;

#[test]
fn movie_queries_cover_three_categories() {
    let q = YoutubeDiscoverer::build_search_queries("Inception", 2010);
    assert_eq!(q.len(), 3);
    assert_eq!(q[0], ("Inception 2010 deleted scenes".to_string(), ContentCategory::DeletedScene));
    assert_eq!(q[1], ("Inception 2010 behind the scenes".to_string(), ContentCategory::BehindTheScenes));
    assert_eq!(q[2], ("Inception 2010 cast interview".to_string(), ContentCategory::Interview));
}

#[test]
fn movie_durations_from_30s_to_40min() {
    assert!(!YoutubeDiscoverer::is_duration_valid(29));
    assert!(YoutubeDiscoverer::is_duration_valid(30));
    assert!(YoutubeDiscoverer::is_duration_valid(2400));
    assert!(!YoutubeDiscoverer::is_duration_valid(2401));
    assert!(YoutubeDiscoverer::is_youtube_short(59, 720, 1280));
    assert!(!YoutubeDiscoverer::is_youtube_short(59, 1280, 720));
}

#[test]
fn movie_filters() {
    assert!(YoutubeDiscoverer::should_include_video(
        "Inception behind the scenes", "Inception", 300, 1920, 1080, 2010
    ));
    assert!(!YoutubeDiscoverer::should_include_video(
        "Inception review", "Inception", 300, 1920, 1080, 2010
    ));
    assert!(!YoutubeDiscoverer::should_include_video(
        "Other film behind the scenes", "Inception", 300, 1920, 1080, 2010
    ));
}

#[test]
fn search_args_with_and_without_cookies() {
    let plain = YoutubeDiscoverer::new().search_args("q");
    assert_eq!(plain.len(), 6);
    assert_eq!(plain[5], "ytsearch5:q");
    let with = YoutubeDiscoverer::with_cookies("firefox".to_string()).search_args("q");
    assert_eq!(with.len(), 8);
    assert_eq!(with[6], "--cookies-from-browser");
    assert_eq!(with[7], "firefox");
}

#[test]
fn search_results_parse_lines_and_filter() {
    let out = String::from("{\"title\":\"Inception behind the scenes\",\"webpage_url\":\"https://y/1\",\"duration\":300,\"width\":1920,\"height\":1080}\r\nnot json\n{\"title\":\"Inception reaction\",\"webpage_url\":\"https://y/2\",\"duration\":300}\n{\"title\":\"Inception behind the scenes 2\",\"webpage_url\":\"https://y/3\",\"duration\":10}");
    let r = YoutubeDiscoverer::search_results(&out, "Inception", ContentCategory::BehindTheScenes, 2010);
    assert_eq!(r.len(), 1);
    assert_eq!(r[0].url, "https://y/1");
    assert_eq!(r[0].source_type, SourceType::YouTube);
    assert_eq!(r[0].duration_secs, Some(300));
    assert!(YoutubeDiscoverer::search_results("", "Inception", ContentCategory::Trailer, 2010).is_empty());
}
