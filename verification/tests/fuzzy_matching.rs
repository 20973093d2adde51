use extras_fetcher::fuzzy_matching::FuzzyMatcher;

#[test]
fn test_normalize_lowercase() {
    assert_eq!(FuzzyMatcher::normalize("HELLO WORLD"), "hello world");
}

#[test]
fn test_normalize_removes_special_chars() {
    assert_eq!(FuzzyMatcher::normalize("Hello-World!"), "helloworld");
}

#[test]
fn test_normalize_multiple_spaces() {
    assert_eq!(FuzzyMatcher::normalize("Hello    World"), "hello world");
}

#[test]
fn test_levenshtein_identical() {
    assert_eq!(FuzzyMatcher::levenshtein_distance("hello", "hello"), 0);
}

#[test]
fn test_levenshtein_one_char_diff() {
    assert_eq!(FuzzyMatcher::levenshtein_distance("hello", "hallo"), 1);
}

#[test]
fn test_levenshtein_empty_string() {
    assert_eq!(FuzzyMatcher::levenshtein_distance("hello", ""), 5);
}

#[test]
fn test_levenshtein_exact_values() {
    assert_eq!(FuzzyMatcher::levenshtein_distance("kitten", "sitting"), 3);
    assert_eq!(FuzzyMatcher::levenshtein_distance("sitting", "kitten"), 3);
    assert_eq!(FuzzyMatcher::levenshtein_distance("", ""), 0);
    assert_eq!(FuzzyMatcher::levenshtein_distance("flaw", "lawn"), 2);
}

#[test]
fn test_similarity_score_identical() {
    assert_eq!(FuzzyMatcher::similarity_score("hello", "hello"), 100);
}

#[test]
fn test_similarity_score_very_different() {
    assert!(FuzzyMatcher::similarity_score("abc", "xyz") < 50);
}

#[test]
fn test_similarity_score_exact_values() {
    assert_eq!(FuzzyMatcher::similarity_score("", ""), 100);
    assert_eq!(FuzzyMatcher::similarity_score("abc", "xyz"), 0);
    // 3/4 unchanged -> 75
    assert_eq!(FuzzyMatcher::similarity_score("abcd", "abcx"), 75);
    // 23 of 40 -> 57.5, which binary floating point rounds down to 57
    let a: String = std::iter::repeat('a').take(40).collect();
    let b: String = std::iter::repeat('a').take(23).chain(std::iter::repeat('b').take(17)).collect();
    assert_eq!(FuzzyMatcher::similarity_score(&a, &b), 57);
    // 1 of 8 -> 12.5 rounds up to 13
    let c: String = std::iter::repeat('a').take(8).collect();
    let d: String = std::iter::repeat('a').take(1).chain(std::iter::repeat('b').take(7)).collect();
    assert_eq!(FuzzyMatcher::similarity_score(&c, &d), 13);
}

#[test]
fn test_titles_match_exact() {
    assert!(FuzzyMatcher::titles_match("Breaking Bad", "Breaking Bad"));
}

#[test]
fn test_titles_match_case_insensitive() {
    assert!(FuzzyMatcher::titles_match("Breaking Bad", "breaking bad"));
}

#[test]
fn test_titles_match_with_special_chars() {
    assert!(FuzzyMatcher::titles_match("Breaking Bad", "Breaking-Bad!"));
}

#[test]
fn test_titles_match_minor_typo() {
    assert!(FuzzyMatcher::titles_match("Breaking Bad", "Braking Bad"));
}

#[test]
fn test_titles_no_match_very_different() {
    assert!(!FuzzyMatcher::titles_match("Breaking Bad", "Game of Thrones"));
}

#[test]
fn test_get_similarity_score() {
    assert_eq!(FuzzyMatcher::get_similarity_score("Breaking Bad", "Breaking Bad"), 100);
}

#[test]
fn test_get_similarity_score_with_typo() {
    assert!(FuzzyMatcher::get_similarity_score("Breaking Bad", "Braking Bad") >= 80);
}

#[test]
fn test_similarity_symmetric_on_samples() {
    let pairs = [("Iron Man", "Iron Men 2"), ("abc", "abd"), ("Breaking Bad", "Braking Bad")];
    for (a, b) in pairs {
        assert_eq!(
            FuzzyMatcher::get_similarity_score(a, b),
            FuzzyMatcher::get_similarity_score(b, a)
        );
    }
}

#[test]
fn zero_distance_only_for_equal_strings() {
    assert_eq!(FuzzyMatcher::levenshtein_distance("sequel", "sequel"), 0);
    assert_ne!(FuzzyMatcher::levenshtein_distance("sequel", "sequal"), 0);
    assert_ne!(FuzzyMatcher::levenshtein_distance("", "a"), 0);
    assert_eq!(FuzzyMatcher::levenshtein_distance("", ""), 0);
}

#[test]
fn similarity_rounds_to_the_nearest_percent() {
    // 4 of 7 characters kept: 57.14% rounds to 57
    assert_eq!(FuzzyMatcher::similarity_score("kitten", "sitting"), 57);
    // 2 of 3 kept: 66.67% rounds to 67
    assert_eq!(FuzzyMatcher::similarity_score("abc", "abd"), 67);
    assert_eq!(FuzzyMatcher::similarity_score("", ""), 100);
}
