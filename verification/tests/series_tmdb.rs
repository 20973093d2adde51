use extras_fetcher::models::{ContentCategory, SeriesExtra, SourceType, SpecialEpisode};
use extras_fetcher::series_tmdb::TmdbSeriesDiscoverer;
use extras_fetcher::tmdb::TmdbVideoInfo;

#[test]
fn series_tmdb_test_map_tmdb_type_trailer() {
    assert_eq!(
        TmdbSeriesDiscoverer::map_tmdb_type("Trailer"),
        Some(ContentCategory::Trailer)
    );
}

#[test]
fn series_tmdb_test_map_tmdb_type_behind_the_scenes() {
    assert_eq!(
        TmdbSeriesDiscoverer::map_tmdb_type("Behind the Scenes"),
        Some(ContentCategory::BehindTheScenes)
    );
}

#[test]
fn series_tmdb_test_map_tmdb_type_featurette() {
    assert_eq!(
        TmdbSeriesDiscoverer::map_tmdb_type("Featurette"),
        Some(ContentCategory::Featurette)
    );
}

#[test]
fn series_tmdb_test_map_tmdb_type_bloopers() {
    assert_eq!(
        TmdbSeriesDiscoverer::map_tmdb_type("Bloopers"),
        Some(ContentCategory::Featurette)
    );
}

#[test]
fn series_tmdb_test_map_tmdb_type_unknown() {
    assert_eq!(TmdbSeriesDiscoverer::map_tmdb_type("Unknown"), None);
}

#[test]
fn series_tmdb_test_map_tmdb_type_deleted_scene() {
    assert_eq!(TmdbSeriesDiscoverer::map_tmdb_type("Deleted Scene"), None);
}

#[test]
fn test_tmdb_series_discoverer_creation() {
    let discoverer = TmdbSeriesDiscoverer::new("test_api_key".to_string());
    assert_eq!(discoverer.api_key, "test_api_key");
}

#[test]
fn test_series_extra_creation_from_video() {
    let series_id = 1234u64;
    let extra = SeriesExtra {
        series_id: series_id.to_string(),
        season_number: None,
        category: ContentCategory::Trailer,
        title: "Series Trailer".to_string(),
        url: "https://www.youtube.com/watch?v=abc123".to_string(),
        source_type: SourceType::TMDB,
        local_path: None,
        duration_secs: None,
    };
    assert_eq!(extra.series_id, "1234");
    assert_eq!(extra.season_number, None);
    assert_eq!(extra.category, ContentCategory::Trailer);
    assert_eq!(extra.source_type, SourceType::TMDB);
}

#[test]
fn test_special_episode_creation() {
    let episode = SpecialEpisode {
        episode_number: 1,
        title: "Pilot Special".to_string(),
        air_date: Some("2020-01-01".to_string()),
        url: None,
        local_path: None,
        tvdb_id: None,
    };
    assert_eq!(episode.episode_number, 1);
    assert_eq!(episode.title, "Pilot Special");
    assert_eq!(episode.air_date, Some("2020-01-01".to_string()));
    assert_eq!(episode.url, None);
}

#[test]
fn test_special_episode_without_air_date() {
    let episode = SpecialEpisode {
        episode_number: 2,
        title: "Unknown Special".to_string(),
        air_date: None,
        url: None,
        local_path: None,
        tvdb_id: None,
    };
    assert_eq!(episode.episode_number, 2);
    assert_eq!(episode.air_date, None);
}

#[test]
fn test_all_tmdb_types_mapped_correctly() {
    for tmdb_type in ["Trailer", "Behind the Scenes", "Featurette", "Bloopers"] {
        assert!(TmdbSeriesDiscoverer::map_tmdb_type(tmdb_type).is_some());
    }
}

#[test]
fn test_unknown_types_return_none() {
    for tmdb_type in ["Unknown", "Random", "NotAType", ""] {
        assert!(TmdbSeriesDiscoverer::map_tmdb_type(tmdb_type).is_none());
    }
}

#[test]
fn series_teasers_and_clips_map() {
    assert_eq!(TmdbSeriesDiscoverer::map_tmdb_type("Teaser"), Some(ContentCategory::Trailer));
    assert_eq!(TmdbSeriesDiscoverer::map_tmdb_type("Clip"), Some(ContentCategory::Featurette));
}

#[test]
fn series_extras_are_series_level_youtube_videos() {
    let videos = vec![
        TmdbVideoInfo {
            key: "k1".to_string(),
            name: "Official Trailer".to_string(),
            site: "YouTube".to_string(),
            video_type: "Trailer".to_string(),
        },
        TmdbVideoInfo {
            key: "k2".to_string(),
            name: "Deleted".to_string(),
            site: "YouTube".to_string(),
            video_type: "Deleted Scene".to_string(),
        },
    ];
    let r = TmdbSeriesDiscoverer::series_extras(1396, &videos);
    assert_eq!(r.len(), 1);
    assert_eq!(r[0].series_id, "1396");
    assert_eq!(r[0].season_number, None);
    assert_eq!(r[0].url, "https://www.youtube.com/watch?v=k1");
}

#[test]
fn series_urls() {
    let d = TmdbSeriesDiscoverer::new("k".to_string());
    let s = d.search_url("Lost", Some(2004));
    assert!(s.contains("query=Lost"));
    assert!(s.ends_with("&first_air_date_year=2004"));
    assert!(!d.search_url("Lost", None).contains("first_air_date_year"));
    assert!(d.season_zero_url(1396).contains("/tv/1396/season/0"));
}
