use extras_fetcher::dailymotion::{DailymotionDiscoverer, DailymotionVideo};
use extras_fetcher::models::{ContentCategory, SourceType};

fn video(id: &str, title: &str, duration: u32) -> DailymotionVideo {
    DailymotionVideo {
        id: id.to_string(),
        title: title.to_string(),
        duration,
        url: format!("https://www.dailymotion.com/video/{}", id),
    }
}

#[test]
fn test_build_search_query_includes_title_and_year() {
    let query = DailymotionDiscoverer::build_search_query("Inception", 2010);
    assert_eq!(query, "Inception 2010");
}

#[test]
fn test_build_search_query_zero_year_omits_year() {
    let query = DailymotionDiscoverer::build_search_query("Breaking Bad", 0);
    assert_eq!(query, "Breaking Bad");
}

#[test]
fn dailymotion_test_map_video_duration_too_short_filtered() {
    let v = video("x1", "Inception Trailer", 20);
    assert!(DailymotionDiscoverer::map_video_to_source(&v).is_none());
}

#[test]
fn dailymotion_test_map_video_duration_too_long_filtered() {
    let v = video("x2", "Inception Full Movie", 2401);
    assert!(DailymotionDiscoverer::map_video_to_source(&v).is_none());
}

#[test]
fn dailymotion_test_map_video_duration_valid_included() {
    let v = video("x3", "Inception Behind the Scenes", 120);
    let source = DailymotionDiscoverer::map_video_to_source(&v);
    assert!(source.is_some());
    let source = source.unwrap();
    assert_eq!(source.source_type, SourceType::Dailymotion);
    assert_eq!(source.url, "https://www.dailymotion.com/video/x3");
}

#[test]
fn dailymotion_test_map_video_excluded_keyword_filtered() {
    let v = video("x4", "Inception Movie Review", 300);
    assert!(DailymotionDiscoverer::map_video_to_source(&v).is_none());
}

#[test]
fn dailymotion_test_map_video_category_inferred_from_title() {
    let v = video("x5", "Inception Official Trailer", 148);
    let source = DailymotionDiscoverer::map_video_to_source(&v).unwrap();
    assert_eq!(source.category, ContentCategory::Trailer);
}

#[test]
fn dailymotion_test_map_video_category_fallback_to_extras() {
    let v = video("x6", "Inception Cast at Premiere", 200);
    let source = DailymotionDiscoverer::map_video_to_source(&v).unwrap();
    assert_eq!(source.category, ContentCategory::Extras);
}

#[test]
fn test_url_construction_uses_https() {
    let url = DailymotionDiscoverer::build_url("Inception 2010", 1);
    assert!(url.starts_with("https://api.dailymotion.com"));
    assert!(url.contains("search=Inception"));
    assert!(url.contains("page=1"));
    assert!(url.contains("limit=10"));
}

#[test]
fn dailymotion_page_sources_keep_order_and_drop_rejects() {
    let page = vec![
        video("a", "Inception Official Trailer", 148),
        video("b", "Inception Review", 148),
        video("c", "Inception Behind the Scenes Featurette", 600),
    ];
    let r = DailymotionDiscoverer::sources_from_page(&page);
    assert_eq!(r.len(), 2);
    assert_eq!(r[0].url, "https://www.dailymotion.com/video/a");
    assert_eq!(r[1].url, "https://www.dailymotion.com/video/c");
    assert_eq!(r[0].duration_secs, Some(148));
}

#[test]
fn dailymotion_paging_stops_after_three_pages() {
    assert_eq!(DailymotionDiscoverer::next_page(1, true), Some(2));
    assert_eq!(DailymotionDiscoverer::next_page(2, false), None);
    assert_eq!(DailymotionDiscoverer::next_page(3, true), None);
}
