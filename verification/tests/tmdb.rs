use extras_fetcher::models::{ContentCategory, SourceType};
use extras_fetcher::tmdb::{TmdbDiscoverer, TmdbVideoInfo};

#[test]
fn tmdb_test_map_tmdb_type_trailer() {
    assert_eq!(TmdbDiscoverer::map_tmdb_type("Trailer"), Some(ContentCategory::Trailer));
}

#[test]
fn test_map_tmdb_type_teaser() {
    assert_eq!(TmdbDiscoverer::map_tmdb_type("Teaser"), Some(ContentCategory::Trailer));
}

#[test]
fn tmdb_test_map_tmdb_type_behind_the_scenes() {
    assert_eq!(
        TmdbDiscoverer::map_tmdb_type("Behind the Scenes"),
        Some(ContentCategory::BehindTheScenes)
    );
}

#[test]
fn tmdb_test_map_tmdb_type_deleted_scene() {
    assert_eq!(
        TmdbDiscoverer::map_tmdb_type("Deleted Scene"),
        Some(ContentCategory::DeletedScene)
    );
}

#[test]
fn tmdb_test_map_tmdb_type_featurette() {
    assert_eq!(TmdbDiscoverer::map_tmdb_type("Featurette"), Some(ContentCategory::Featurette));
}

#[test]
fn tmdb_test_map_tmdb_type_bloopers() {
    assert_eq!(TmdbDiscoverer::map_tmdb_type("Bloopers"), Some(ContentCategory::Featurette));
}

#[test]
fn test_map_tmdb_type_interview() {
    assert_eq!(TmdbDiscoverer::map_tmdb_type("Interview"), Some(ContentCategory::Interview));
}

#[test]
fn test_map_tmdb_type_short() {
    assert_eq!(TmdbDiscoverer::map_tmdb_type("Short"), Some(ContentCategory::Short));
}

#[test]
fn tmdb_test_map_tmdb_type_unknown() {
    assert_eq!(TmdbDiscoverer::map_tmdb_type("Unknown"), None);
    assert_eq!(TmdbDiscoverer::map_tmdb_type(""), None);
}

#[test]
fn test_tmdb_discoverer_creation() {
    let api_key = "test_api_key_12345".to_string();
    let discoverer = TmdbDiscoverer::new(api_key.clone());
    assert_eq!(discoverer.api_key, api_key);
}

#[test]
fn test_movie_search_url_construction() {
    let d = TmdbDiscoverer::new("test_key".to_string());
    let url = d.search_url("The Matrix", 1999);
    assert_eq!(
        url,
        "https://api.themoviedb.org/3/search/movie?api_key=test_key&query=The%20Matrix&year=1999"
    );
}

#[test]
fn test_movie_search_url_with_special_characters() {
    let d = TmdbDiscoverer::new("k".to_string());
    let encoded = d.search_url("Movie: The Sequel (Part 2)", 2001);
    assert!(encoded.contains("%3A"));
    assert!(encoded.contains("%28"));
    assert!(encoded.contains("%29"));
}

#[test]
fn test_videos_url_construction() {
    let d = TmdbDiscoverer::new("test_key".to_string());
    assert_eq!(
        d.videos_url(603),
        "https://api.themoviedb.org/3/movie/603/videos?api_key=test_key"
    );
}

#[test]
fn search_url_encodes_non_ascii_titles() {
    let d = TmdbDiscoverer::new("k".to_string());
    let url = d.search_url("Amélie & Co", 2001);
    assert!(url.contains("query=Am%C3%A9lie%20%26%20Co"));
    assert!(url.contains("year=2001"));
}

#[test]
fn search_url_percent_encodes_reserved_characters() {
    let d = TmdbDiscoverer::new("k".to_string());
    assert!(d.search_url("a b/c", 1).contains("query=a%20b%2Fc&"));
    assert!(d.search_url("abc-_.~", 1).contains("query=abc-_.~&"));
}

#[test]
fn movie_sources_keep_youtube_videos_of_known_type() {
    let v = |key: &str, site: &str, t: &str| TmdbVideoInfo {
        key: key.to_string(),
        name: format!("name {}", key),
        site: site.to_string(),
        video_type: t.to_string(),
    };
    let videos = vec![
        v("a", "YouTube", "Trailer"),
        v("b", "Vimeo", "Trailer"),
        v("c", "YouTube", "Opening Credits"),
        v("d", "YouTube", "Featurette"),
    ];
    let r = TmdbDiscoverer::movie_sources(&videos);
    assert_eq!(r.len(), 2);
    assert_eq!(r[0].url, "https://www.youtube.com/watch?v=a");
    assert_eq!(r[0].source_type, SourceType::TMDB);
    assert_eq!(r[1].category, ContentCategory::Featurette);
    assert_eq!(r[1].title, "name d");
}
