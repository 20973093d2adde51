use extras_fetcher::special_validator::{SpecialValidator, VideoCandidate};
use extras_fetcher::tvdb::TvdbEpisodeExtended;

fn episode(number: u8, name: &str, is_movie: Option<bool>) -> TvdbEpisodeExtended {
    TvdbEpisodeExtended {
        id: number as u64,
        number,
        name: name.to_string(),
        name_eng: None,
        aired: None,
        overview: None,
        absolute_number: None,
        airs_before_season: None,
        airs_after_season: None,
        airs_before_episode: None,
        is_movie,
    }
}

fn candidate(title: &str, duration: f64, url: &str) -> VideoCandidate {
    VideoCandidate {
        url: url.to_string(),
        webpage_url: String::new(),
        title: title.to_string(),
        duration_secs: duration as u32,
    }
}

#[test]
fn test_pick_best_selects_highest_similarity() {
    let ep = episode(3, "THE LEVELING OF SOLO LEVELING Part 1", None);
    let candidates = vec![
        candidate("Random Anime Clip", 300.0, "https://yt/a"),
        candidate(
            "Solo Leveling THE LEVELING OF SOLO LEVELING Part 1 A Hunter Rises",
            1200.0,
            "https://yt/b",
        ),
        candidate("Solo Leveling Trailer", 90.0, "https://yt/c"),
    ];
    let result = SpecialValidator::pick_best(&candidates, &ep, "Solo Leveling");
    assert!(result.is_some());
    assert_eq!(result.as_ref().expect("should match").url, "https://yt/b");
}

#[test]
fn test_pick_best_rejects_short_movie() {
    let ep = episode(2, "ReAwakening", Some(true));
    let candidates = vec![
        candidate("ReAwakening Trailer", 120.0, "https://yt/a"),
        candidate("ReAwakening Clip", 300.0, "https://yt/b"),
    ];
    let result = SpecialValidator::pick_best(&candidates, &ep, "Solo Leveling");
    assert!(result.is_none());
}

#[test]
fn test_pick_best_accepts_long_movie() {
    let ep = episode(2, "ReAwakening", Some(true));
    let candidates = vec![
        candidate("ReAwakening Trailer", 120.0, "https://yt/a"),
        candidate("Solo Leveling ReAwakening", 7500.0, "https://yt/b"),
    ];
    let result = SpecialValidator::pick_best(&candidates, &ep, "Solo Leveling");
    assert!(result.is_some());
    assert_eq!(result.as_ref().expect("should match").url, "https://yt/b");
}

#[test]
fn test_pick_best_rejects_low_similarity() {
    let ep = episode(1, "How to Get Stronger", None);
    let candidates = vec![candidate(
        "Completely Unrelated Video About Cooking",
        600.0,
        "https://yt/a",
    )];
    let result = SpecialValidator::pick_best(&candidates, &ep, "Solo Leveling");
    assert!(result.is_none());
}

#[test]
fn test_pick_best_non_movie_allows_short_duration() {
    let ep = episode(1, "How to Get Stronger", None);
    let candidates = vec![candidate("How to Get Stronger Recap", 300.0, "https://yt/a")];
    let result = SpecialValidator::pick_best(&candidates, &ep, "Some Series");
    assert!(result.is_some());
}

#[test]
fn test_pick_best_movie_boundary_600s() {
    let ep = episode(2, "ReAwakening", Some(true));
    let pass = vec![candidate("ReAwakening", 600.0, "https://yt/a")];
    assert!(SpecialValidator::pick_best(&pass, &ep, "Test").is_some());
    let fail = vec![candidate("ReAwakening", 599.0, "https://yt/b")];
    assert!(SpecialValidator::pick_best(&fail, &ep, "Test").is_none());
}

#[test]
fn test_pick_best_empty_candidates() {
    let ep = episode(1, "Test", None);
    let result = SpecialValidator::pick_best(&[], &ep, "Test");
    assert!(result.is_none());
}

#[test]
fn test_pick_best_prefers_longer_movie() {
    let ep = episode(2, "ReAwakening", Some(true));
    let candidates = vec![
        candidate("ReAwakening", 700.0, "https://yt/short"),
        candidate("ReAwakening", 7500.0, "https://yt/full"),
    ];
    let result = SpecialValidator::pick_best(&candidates, &ep, "Test");
    assert!(result.is_some());
    assert_eq!(result.as_ref().expect("should match").url, "https://yt/full");
}

#[test]
fn test_pick_best_strips_series_title() {
    let mut ep = episode(1, "強くなる方法", None);
    ep.name_eng = Some("How to Get Stronger".to_string());
    let candidates = vec![candidate(
        "Solo Leveling How to Get Stronger Special",
        600.0,
        "https://yt/a",
    )];
    let result = SpecialValidator::pick_best(&candidates, &ep, "Solo Leveling");
    assert!(result.is_some());
}

#[test]
fn test_pick_best_uses_english_variant() {
    let mut ep = episode(2, "再覚醒", Some(true));
    ep.name_eng = Some("ReAwakening".to_string());
    let candidates = vec![candidate("Solo Leveling ReAwakening", 7500.0, "https://yt/a")];
    let result = SpecialValidator::pick_best(&candidates, &ep, "Solo Leveling");
    assert!(result.is_some());
}

#[test]
fn get_url_prefers_url_over_webpage_url() {
    let mut c = candidate("t", 1.0, "https://www.youtube.com/watch?v=preferred");
    c.webpage_url = "https://www.youtube.com/watch?v=fallback".to_string();
    assert_eq!(c.get_url(), "https://www.youtube.com/watch?v=preferred");
    c.url = String::new();
    assert_eq!(c.get_url(), "https://www.youtube.com/watch?v=fallback");
    assert!(SpecialValidator::has_url(&c));
    c.webpage_url = String::new();
    assert!(!SpecialValidator::has_url(&c));
}

#[test]
fn pick_best_keeps_the_first_of_equal_scores() {
    let ep = episode(1, "Pilot", None);
    let candidates = vec![
        candidate("Pilot", 100.0, "https://yt/first"),
        candidate("Pilot", 200.0, "https://yt/second"),
    ];
    let r = SpecialValidator::pick_best(&candidates, &ep, "Show").unwrap();
    assert_eq!(r.url, "https://yt/first");
    assert_eq!(r.duration, 100);
    assert_eq!(r.video_title, "Pilot");
}

#[test]
fn candidate_search_asks_five_results() {
    let args = SpecialValidator::search_args("Doctor Who The Five Doctors");
    assert_eq!(args.len(), 8);
    assert_eq!(args[0], "--dump-json");
    assert_eq!(args[7], "ytsearch5:Doctor Who The Five Doctors");
}

#[test]
fn candidates_without_url_are_dropped() {
    let make = |url: &str, page: &str, title: &str| VideoCandidate {
        url: url.to_string(),
        webpage_url: page.to_string(),
        title: title.to_string(),
        duration_secs: 100,
    };
    let kept = SpecialValidator::with_url(vec![
        make("", "", "none"),
        make("https://a", "", "first"),
        make("", "https://b", "second"),
    ]);
    assert_eq!(kept.len(), 2);
    assert_eq!(kept[0].title, "first");
    assert_eq!(kept[1].title, "second");
}
