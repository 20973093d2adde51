use extras_fetcher::special_searcher::SpecialSearcher;
use extras_fetcher::tvdb::TvdbEpisodeExtended;

fn create_test_episode(
    number: u8,
    name: &str,
    is_movie: Option<bool>,
    absolute_number: Option<u32>,
) -> TvdbEpisodeExtended {
    TvdbEpisodeExtended {
        id: 1,
        number,
        name: name.to_string(),
        name_eng: None,
        aired: None,
        overview: None,
        absolute_number,
        airs_before_season: None,
        airs_after_season: None,
        airs_before_episode: None,
        is_movie,
    }
}

fn calculate_similarity(s1: &str, s2: &str) -> f64 {
    let (common, total) = SpecialSearcher::similarity_counts(s1, s2);
    if total == 0 {
        return 0.0;
    }
    common as f64 / total as f64
}

#[test]
fn test_build_queries_standard_and_fallback() {
    let episode = create_test_episode(5, "Holiday Special", None, None);
    let queries = SpecialSearcher::build_queries("Breaking Bad", &episode);
    assert_eq!(queries.len(), 2);
    assert_eq!(queries[0], "Breaking Bad S00E05 Holiday Special");
    assert_eq!(queries[1], "Breaking Bad Holiday Special");
}

#[test]
fn test_build_queries_with_movie() {
    let episode = create_test_episode(5, "Holiday Special", Some(true), None);
    let queries = SpecialSearcher::build_queries("Breaking Bad", &episode);
    assert_eq!(queries.len(), 3);
    assert_eq!(queries[0], "Breaking Bad S00E05 Holiday Special");
    assert_eq!(queries[1], "Breaking Bad Holiday Special");
    assert_eq!(queries[2], "Breaking Bad Holiday Special movie");
}

#[test]
fn test_build_queries_with_absolute_number() {
    let episode = create_test_episode(5, "Holiday Special", None, Some(42));
    let queries = SpecialSearcher::build_queries("Breaking Bad", &episode);
    assert_eq!(queries.len(), 3);
    assert_eq!(queries[0], "Breaking Bad S00E05 Holiday Special");
    assert_eq!(queries[1], "Breaking Bad Holiday Special");
    assert_eq!(queries[2], "Breaking Bad OVA 42");
}

#[test]
fn test_build_queries_with_movie_and_absolute_number() {
    let episode = create_test_episode(5, "Holiday Special", Some(true), Some(42));
    let queries = SpecialSearcher::build_queries("Breaking Bad", &episode);
    assert_eq!(queries.len(), 4);
    assert_eq!(queries[0], "Breaking Bad S00E05 Holiday Special");
    assert_eq!(queries[1], "Breaking Bad Holiday Special");
    assert_eq!(queries[2], "Breaking Bad Holiday Special movie");
    assert_eq!(queries[3], "Breaking Bad OVA 42");
}

#[test]
fn test_build_queries_episode_number_formatting() {
    let episode = create_test_episode(1, "Pilot", None, None);
    let queries = SpecialSearcher::build_queries("Test Series", &episode);
    assert!(queries[0].contains("S00E01"));
}

#[test]
fn test_build_queries_episode_number_double_digit() {
    let episode = create_test_episode(15, "Special", None, None);
    let queries = SpecialSearcher::build_queries("Test Series", &episode);
    assert!(queries[0].contains("S00E15"));
}

#[test]
fn test_should_include_result_high_similarity() {
    assert!(SpecialSearcher::should_include_result(
        "Breaking Bad Holiday Special",
        "Holiday Special"
    ));
}

#[test]
fn test_should_include_result_low_similarity() {
    assert!(!SpecialSearcher::should_include_result(
        "Completely Different Title",
        "Holiday Special"
    ));
}

#[test]
fn test_should_include_result_exact_match() {
    assert!(SpecialSearcher::should_include_result(
        "Holiday Special",
        "Holiday Special"
    ));
}

#[test]
fn test_should_include_result_case_insensitive() {
    assert!(SpecialSearcher::should_include_result(
        "HOLIDAY SPECIAL",
        "holiday special"
    ));
}

#[test]
fn test_calculate_similarity_identical() {
    let similarity = calculate_similarity("test", "test");
    assert!((similarity - 1.0).abs() < 0.01);
}

#[test]
fn test_calculate_similarity_completely_different() {
    let similarity = calculate_similarity("abc", "xyz");
    assert!(similarity < 0.5);
}

#[test]
fn test_calculate_similarity_empty_strings() {
    let similarity = calculate_similarity("", "");
    assert_eq!(similarity, 0.0);
}

#[test]
fn similarity_counts_distinct_characters() {
    assert_eq!(SpecialSearcher::similarity_counts("aab", "abc"), (2, 3));
    assert_eq!(SpecialSearcher::similarity_counts("ABC", "abc"), (3, 3));
    assert_eq!(SpecialSearcher::similarity_counts("", ""), (0, 0));
}

#[test]
fn inclusion_threshold_is_sixty_percent() {
    // 3 of 5 distinct characters in common: exactly 60%.
    assert!(SpecialSearcher::should_include_result("abcd", "abce"));
    // 3 of 6: 50%.
    assert!(!SpecialSearcher::should_include_result("abcd", "abcef"));
    assert!(!SpecialSearcher::should_include_result("", ""));
}

#[test]
fn inclusion_is_symmetric_on_examples() {
    let pairs = [("Holiday Special", "Breaking Bad"), ("abc", "abd"), ("x", "")];
    for (a, b) in pairs {
        assert_eq!(
            SpecialSearcher::should_include_result(a, b),
            SpecialSearcher::should_include_result(b, a)
        );
    }
}
