use extras_fetcher::api_step::ApiStep;
use extras_fetcher::models::{ContentCategory, SourceType};
use extras_fetcher::vimeo::{VimeoDiscoverer, VimeoVideo};

fn make_video(name: &str, duration: u32, link: &str) -> VimeoVideo {
    VimeoVideo {
        uri: format!("/videos/{}", duration),
        name: name.to_string(),
        duration,
        link: link.to_string(),
    }
}

#[test]
fn test_build_url_uses_https_and_encodes_query() {
    let url = VimeoDiscoverer::build_url("Inception 2010", 1);
    assert!(url.starts_with("https://api.vimeo.com"));
    assert!(url.contains("query=Inception%202010"));
    assert!(url.contains("page=1"));
    assert!(url.contains("per_page=10"));
    assert!(url.contains("fields=uri,name,duration,link"));
}

#[test]
fn vimeo_test_map_video_duration_too_short_filtered() {
    let video = make_video("Inception Trailer", 20, "https://vimeo.com/111");
    assert!(VimeoDiscoverer::map_video_to_source(&video, "Inception", 2010).is_none());
}

#[test]
fn vimeo_test_map_video_duration_too_long_filtered() {
    let video = make_video("Inception Full Movie", 2401, "https://vimeo.com/222");
    assert!(VimeoDiscoverer::map_video_to_source(&video, "Inception", 2010).is_none());
}

#[test]
fn vimeo_test_map_video_duration_valid_included() {
    let video = make_video("Inception Behind the Scenes", 120, "https://vimeo.com/333");
    let source = VimeoDiscoverer::map_video_to_source(&video, "Inception", 2010);
    assert!(source.is_some());
    let source = source.expect("should be Some");
    assert_eq!(source.source_type, SourceType::Vimeo);
    assert_eq!(source.url, "https://vimeo.com/333");
}

#[test]
fn vimeo_test_map_video_excluded_keyword_filtered() {
    let video = make_video("Inception Movie Review", 300, "https://vimeo.com/444");
    assert!(VimeoDiscoverer::map_video_to_source(&video, "Inception", 2010).is_none());
}

#[test]
fn vimeo_test_map_video_category_inferred_from_title() {
    let video = make_video("Inception Official Trailer", 148, "https://vimeo.com/555");
    let source =
        VimeoDiscoverer::map_video_to_source(&video, "Inception", 2010).expect("should be Some");
    assert_eq!(source.category, ContentCategory::Trailer);
}

#[test]
fn vimeo_test_map_video_category_fallback_to_extras() {
    let video = make_video("Inception Cast at Premiere", 200, "https://vimeo.com/666");
    let source =
        VimeoDiscoverer::map_video_to_source(&video, "Inception", 2010).expect("should be Some");
    assert_eq!(source.category, ContentCategory::Extras);
}

#[test]
fn test_map_video_url_uses_link_not_uri() {
    let video = VimeoVideo {
        uri: "/videos/999".to_string(),
        name: "Inception Trailer".to_string(),
        duration: 120,
        link: "https://vimeo.com/999".to_string(),
    };
    let source =
        VimeoDiscoverer::map_video_to_source(&video, "Inception", 2010).expect("should be Some");
    assert_eq!(source.url, video.link);
    assert_ne!(source.url, video.uri);
}

#[test]
fn test_map_video_unrelated_title_filtered() {
    let video = make_video("Ben Wilkins Showreel", 120, "https://vimeo.com/unrelated");
    assert!(VimeoDiscoverer::map_video_to_source(&video, "2 Fast 2 Furious", 2003).is_none());
}

#[test]
fn test_map_video_duration_boundary_min() {
    let video = make_video("Inception Clip", 30, "https://vimeo.com/min");
    assert!(VimeoDiscoverer::map_video_to_source(&video, "Inception", 2010).is_some());
}

#[test]
fn test_map_video_duration_boundary_max() {
    let video = make_video("Inception Documentary", 2400, "https://vimeo.com/max");
    assert!(VimeoDiscoverer::map_video_to_source(&video, "Inception", 2400).is_some());
}

#[test]
fn test_map_video_duration_secs_populated() {
    let video = make_video("Inception Featurette", 360, "https://vimeo.com/777");
    let source =
        VimeoDiscoverer::map_video_to_source(&video, "Inception", 2010).expect("should be Some");
    assert_eq!(source.duration_secs, Some(360));
}

#[test]
fn vimeo_authorization_is_bearer() {
    let d = VimeoDiscoverer::new("tok".to_string());
    assert_eq!(d.authorization(), "bearer tok");
}

#[test]
fn vimeo_not_found_is_an_error() {
    assert_eq!(VimeoDiscoverer::step_for_status(404, false), ApiStep::Fail);
    assert_eq!(VimeoDiscoverer::step_for_status(429, false), ApiStep::RetryAfterPause);
    assert_eq!(VimeoDiscoverer::step_for_status(200, false), ApiStep::ReadBody);
}

#[test]
fn vimeo_query_and_paging() {
    assert_eq!(VimeoDiscoverer::build_search_query("Inception", 2010), "Inception 2010");
    assert_eq!(VimeoDiscoverer::build_search_query("Inception", 0), "Inception");
    assert_eq!(VimeoDiscoverer::next_page(2, true), Some(3));
    assert_eq!(VimeoDiscoverer::next_page(3, true), None);
    let page = vec![
        make_video("Inception Official Trailer", 148, "https://vimeo.com/1"),
        make_video("Other thing", 148, "https://vimeo.com/2"),
    ];
    let r = VimeoDiscoverer::sources_from_page(&page, "Inception", 2010);
    assert_eq!(r.len(), 1);
    assert_eq!(r[0].url, "https://vimeo.com/1");
}
