use extras_fetcher::json_output::ProgressEvent;
use extras_fetcher::retry::{RetryPolicy, RetryStep};
use extras_fetcher::series_cache::SeriesMetadataCache;
use extras_fetcher::text::split_lines;
use extras_fetcher::tvdb::{TvdbApi, TvdbEpisode, TvdbEpisodeExtended, TvdbEpisodesData, TvdbTranslation};

#[test]
fn progress_event_starts_without_details() {
    let e = ProgressEvent::new("movie_start", 1, 3, "Inception".to_string(), Some(2010));
    assert_eq!(e.event, "movie_start");
    assert_eq!((e.current, e.total), (1, 3));
    assert_eq!(e.year, Some(2010));
    assert!(e.phase.is_none() && e.error.is_none() && e.success.is_none());
}

#[test]
fn retry_waits_double_then_give_up() {
    let p = RetryPolicy::new(3, 100);
    assert_eq!(p.after_failure(0), RetryStep::WaitMillis(100));
    assert_eq!(p.after_failure(1), RetryStep::WaitMillis(200));
    assert_eq!(p.after_failure(2), RetryStep::GiveUp);
    assert_eq!(RetryPolicy::new(1, 5).after_failure(0), RetryStep::GiveUp);
}

#[test]
fn cache_freshness() {
    assert!(SeriesMetadataCache::is_fresh_age(Some(0)));
    assert!(SeriesMetadataCache::is_fresh_age(Some(604_799_999)));
    assert!(!SeriesMetadataCache::is_fresh_age(Some(604_800_000)));
    assert!(!SeriesMetadataCache::is_fresh_age(None));
    assert!(!SeriesMetadataCache::is_cache_fresh("not a date"));
    assert!(!SeriesMetadataCache::is_cache_fresh("2001-01-01T00:00:00+00:00"));
    assert!(SeriesMetadataCache::is_cache_fresh("2999-01-01T00:00:00+00:00"));
}

#[test]
fn cache_file_names() {
    assert_eq!(SeriesMetadataCache::cache_file_name("Show: A/B"), "Show_ A_B.json");
    assert_eq!(SeriesMetadataCache::tvdb_cache_file_name(81189), "tvdb_season0_81189.json");
    let c = SeriesMetadataCache::with_ttl(std::path::Path::new("/s"), 3);
    assert_eq!(c.ttl_days, 3);
    assert_eq!(c.cache_dir, std::path::PathBuf::from("/s/.cache"));
    assert_eq!(SeriesMetadataCache::new(std::path::Path::new("/s")).ttl_days, 7);
}

#[test]
fn tvdb_requests() {
    assert_eq!(TvdbApi::login_url(), "https://api4.thetvdb.com/v4/login");
    assert_eq!(TvdbApi::bearer("t"), "Bearer t");
    assert!(TvdbApi::needs_new_login(401));
    assert!(!TvdbApi::needs_new_login(403));
    assert_eq!(
        TvdbApi::season_zero_page_url(81189, 0, None),
        "https://api4.thetvdb.com/v4/series/81189/episodes/default?season=0&page=0"
    );
    assert_eq!(
        TvdbApi::season_zero_page_url(81189, 1, Some("https://next".to_string())),
        "https://next"
    );
    assert_eq!(
        TvdbApi::episode_extended_url(5),
        "https://api4.thetvdb.com/v4/episodes/5/extended"
    );
    assert_eq!(
        TvdbApi::translation_url(5),
        "https://api4.thetvdb.com/v4/episodes/5/translations/eng"
    );
}

#[test]
fn tvdb_names() {
    let t = TvdbTranslation { name: String::new() };
    assert_eq!(TvdbApi::english_name(t), None);
    let t = TvdbTranslation { name: "Pilot".to_string() };
    assert_eq!(TvdbApi::english_name(t), Some("Pilot".to_string()));
    let mut e = TvdbEpisodeExtended {
        id: 1,
        number: 1,
        name: "再覚醒".to_string(),
        name_eng: Some("ReAwakening".to_string()),
        aired: None,
        overview: None,
        absolute_number: None,
        airs_before_season: None,
        airs_after_season: None,
        airs_before_episode: None,
        is_movie: None,
    };
    assert_eq!(e.name_variants(), vec!["再覚醒", "ReAwakening"]);
    e.name_eng = Some("再覚醒".to_string());
    assert_eq!(e.name_variants(), vec!["再覚醒"]);
}

#[test]
fn lines_split_like_str_lines() {
    for text in ["", "a", "a\n", "a\r\nb", "\n\n", "x\ry\n", "a\n\nb\r"] {
        let expected: Vec<String> = text.lines().map(|l| l.to_string()).collect();
        assert_eq!(split_lines(text), expected, "text {:?}", text);
    }
}

#[test]
fn custom_ttl_decides_freshness() {
    let day: i64 = 86_400_000;
    let short = SeriesMetadataCache::with_ttl(std::path::Path::new("/tmp/series"), 1);
    assert!(short.is_within_ttl(Some(day - 1)));
    assert!(!short.is_within_ttl(Some(2 * day)));
    assert!(SeriesMetadataCache::is_fresh_age(Some(2 * day)));
    let long = SeriesMetadataCache::with_ttl(std::path::Path::new("/tmp/series"), 30);
    assert!(long.is_within_ttl(Some(10 * day)));
    assert!(!long.is_within_ttl(None));
    let two_days_ago = (chrono::Utc::now() - chrono::Duration::days(2)).to_rfc3339();
    assert!(!short.is_fresh_under_ttl(&two_days_ago));
    assert!(long.is_fresh_under_ttl(&two_days_ago));
    assert!(!long.is_fresh_under_ttl("yesterday"));
    let default = SeriesMetadataCache::new(std::path::Path::new("/tmp/series"));
    assert_eq!(default.ttl_days, 7);
    assert_eq!(default.cache_dir, std::path::Path::new("/tmp/series").join(".cache"));
    assert!(default.is_within_ttl(Some(2 * day)));
}

#[test]
fn season_zero_pages_accumulate_until_the_last() {
    let ep = |id: u64| TvdbEpisode { id, number: id as u8, name: format!("Special {}", id), aired: None, overview: None };
    let mut all = Vec::new();
    let next = TvdbApi::take_season_zero_page(
        &mut all,
        TvdbEpisodesData { episodes: vec![ep(1), ep(2)], next: Some("https://api4.thetvdb.com/v4/next".to_string()) },
    );
    assert_eq!(next.as_deref(), Some("https://api4.thetvdb.com/v4/next"));
    let next = TvdbApi::take_season_zero_page(&mut all, TvdbEpisodesData { episodes: vec![ep(3)], next: None });
    assert_eq!(next, None);
    assert_eq!(all.iter().map(|e| e.id).collect::<Vec<_>>(), vec![1, 2, 3]);
}

#[test]
fn retry_delay_fits_in_64_bits() {
    assert!(RetryPolicy::new(3, 500).delay_fits(2));
    assert!(RetryPolicy::new(3, 1).delay_fits(63));
    assert!(!RetryPolicy::new(3, 2).delay_fits(63));
    assert!(!RetryPolicy::new(3, u64::MAX).delay_fits(1));
    assert!(RetryPolicy::new(3, u64::MAX).delay_fits(0));
}
