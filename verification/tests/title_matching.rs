use extras_fetcher::models::ContentCategory;
use extras_fetcher::title_matching::{
    contains_excluded_keywords, contains_movie_title, extract_season_numbers,
    infer_category_from_title, mentions_different_year, mentions_sequel_number, normalize_title,
    references_unavailable_season, roman_to_int,
};

#[test]
fn test_normalize_title_basic() {
    assert_eq!(normalize_title("The Matrix"), "the matrix");
    assert_eq!(normalize_title("INCEPTION"), "inception");
}

#[test]
fn test_normalize_title_with_superscripts() {
    assert_eq!(normalize_title("Movie²"), "movie 2");
    assert_eq!(normalize_title("Movie³"), "movie 3");
}

#[test]
fn test_normalize_title_with_roman_numerals() {
    assert_eq!(normalize_title("REC II"), "rec 2");
    assert_eq!(normalize_title("REC III"), "rec 3");
}

#[test]
fn test_normalize_title_roman_between_words() {
    assert_eq!(normalize_title("Rocky IV The Fight"), "rocky 4 the fight");
    assert_eq!(normalize_title("  Spaced   Out!  "), "spaced out");
}

#[test]
fn test_contains_movie_title() {
    assert!(contains_movie_title("REC Official Trailer", "REC"));
    assert!(contains_movie_title(
        "The Matrix Behind the Scenes",
        "The Matrix"
    ));
    assert!(!contains_movie_title("Inception Trailer", "The Matrix"));
}

#[test]
fn test_contains_excluded_keywords() {
    assert!(contains_excluded_keywords("Movie Review"));
    assert!(contains_excluded_keywords("Reaction Video"));
    assert!(contains_excluded_keywords("Analysis"));
    assert!(!contains_excluded_keywords("Official Trailer"));
}

#[test]
fn test_roman_to_int() {
    assert_eq!(roman_to_int("II"), Some(2));
    assert_eq!(roman_to_int("III"), Some(3));
    assert_eq!(roman_to_int("IV"), Some(4));
    assert_eq!(roman_to_int("XIX"), Some(19));
    assert_eq!(roman_to_int("I"), None);
    assert_eq!(roman_to_int("XX"), None);
}

#[test]
fn test_roman_to_int_lowercase_and_invalid() {
    assert_eq!(roman_to_int("ix"), Some(9));
    assert_eq!(roman_to_int(""), None);
    assert_eq!(roman_to_int("IIZ"), None);
    assert_eq!(roman_to_int("XXXXXXXXXX"), None);
}

#[test]
fn test_mentions_sequel_number() {
    assert!(mentions_sequel_number("REC 2 Trailer", "REC"));
    assert!(mentions_sequel_number("REC2 Behind the Scenes", "REC"));
    assert!(!mentions_sequel_number("REC Official Trailer", "REC"));
}

#[test]
fn test_mentions_sequel_number_year_and_roman() {
    assert!(!mentions_sequel_number("REC 2007 Trailer", "REC"));
    assert!(mentions_sequel_number("REC III Genesis", "REC"));
    assert!(mentions_sequel_number("recvi teaser", "REC"));
}

#[test]
fn test_mentions_different_year() {
    assert!(mentions_different_year("REC 2009 Trailer", 2007));
    assert!(!mentions_different_year("REC 2007 Trailer", 2007));
    assert!(!mentions_different_year("REC Official Trailer", 2007));
}

#[test]
fn test_extract_season_numbers() {
    assert_eq!(
        extract_season_numbers("Breaking Bad Extras Season 3"),
        vec![3]
    );
    assert_eq!(
        extract_season_numbers("Season 1 Behind the Scenes"),
        vec![1]
    );
    assert_eq!(extract_season_numbers("season 03 extras"), vec![3]);
    assert_eq!(
        extract_season_numbers("Breaking Bad (2008) - Season (1) Extras - The Writer s Lab"),
        vec![1]
    );
    assert_eq!(
        extract_season_numbers("Season (2) Behind the Scenes"),
        vec![2]
    );
    assert_eq!(extract_season_numbers("Breaking Bad S03E01"), vec![3]);
    assert_eq!(extract_season_numbers("S5 Deleted Scenes"), vec![5]);
    let mut result = extract_season_numbers("Season 1 and Season 3 recap");
    result.sort();
    assert_eq!(result, vec![1, 3]);
    assert!(extract_season_numbers("Breaking Bad Cast Interview").is_empty());
    assert!(extract_season_numbers("Behind the Scenes").is_empty());
    assert!(extract_season_numbers("Season 0 Specials").is_empty());
}

#[test]
fn test_references_unavailable_season() {
    let available = vec![1, 2];
    assert!(references_unavailable_season(
        "Bryan Cranston & Aaron Paul Answers Fan Questions | Breaking Bad Extras Season 3",
        &available
    ));
    assert!(!references_unavailable_season(
        "Breaking Bad Season 1 Behind the Scenes",
        &available
    ));
    assert!(!references_unavailable_season(
        "Breaking Bad Cast Interview",
        &available
    ));
    assert!(references_unavailable_season(
        "Breaking Bad S03 Deleted Scenes",
        &available
    ));
    assert!(!references_unavailable_season(
        "Season 1 and Season 3 comparison",
        &available
    ));
}

#[test]
fn test_infer_category_from_title_trailer() {
    assert_eq!(
        infer_category_from_title("A TOUCH OF ZEN Trailer [1971]"),
        Some(ContentCategory::Trailer)
    );
    assert_eq!(
        infer_category_from_title("Official Teaser - Movie Name"),
        Some(ContentCategory::Trailer)
    );
}

#[test]
fn test_infer_category_from_title_deleted_scene() {
    assert_eq!(
        infer_category_from_title("COBRA \"Deleted Scenes\" (1986) Stallone"),
        Some(ContentCategory::DeletedScene)
    );
}

#[test]
fn test_infer_category_from_title_behind_the_scenes() {
    assert_eq!(
        infer_category_from_title("Coach Carter Movie - Behind the Scenes (2)"),
        Some(ContentCategory::BehindTheScenes)
    );
    assert_eq!(
        infer_category_from_title("Go Behind the Scenes of Money Monster (2016)"),
        Some(ContentCategory::BehindTheScenes)
    );
    assert_eq!(
        infer_category_from_title("Making of The Matrix"),
        Some(ContentCategory::BehindTheScenes)
    );
}

#[test]
fn title_matching_test_infer_category_from_title_interview() {
    assert_eq!(
        infer_category_from_title("George Clooney Interview - Money Monster"),
        Some(ContentCategory::Interview)
    );
    assert_eq!(
        infer_category_from_title("The Real Coach Carter Talks About The Movie"),
        Some(ContentCategory::Interview)
    );
    assert_eq!(
        infer_category_from_title("MONEY MONSTER - Press Conference - Cannes 2016"),
        Some(ContentCategory::Interview)
    );
}

#[test]
fn test_infer_category_from_title_featurette() {
    assert_eq!(
        infer_category_from_title("Coach Carter Documentary - the real coach carter"),
        Some(ContentCategory::Featurette)
    );
    assert_eq!(
        infer_category_from_title("Cobra (1986) - Bonus Clip: Actor Brian Thompson"),
        Some(ContentCategory::Featurette)
    );
}

#[test]
fn test_infer_category_from_title_none_when_ambiguous() {
    assert_eq!(
        infer_category_from_title("Coach Carter - Go to College"),
        None
    );
    assert_eq!(infer_category_from_title("a touch of zen (俠女)"), None);
}

#[test]
fn test_infer_category_from_title_short() {
    assert_eq!(
        infer_category_from_title("Pixar Short Film: Bao"),
        Some(ContentCategory::Short)
    );
    assert_eq!(
        infer_category_from_title("Disney Animated Short Collection"),
        Some(ContentCategory::Short)
    );
    assert_eq!(
        infer_category_from_title("A Short by the Director"),
        Some(ContentCategory::Short)
    );
    assert_eq!(
        infer_category_from_title("Pixar Short: Bao"),
        Some(ContentCategory::Short)
    );
    assert_eq!(
        infer_category_from_title("Director's Short."),
        Some(ContentCategory::Short)
    );
    assert_eq!(infer_category_from_title("Shortcut to Hollywood"), None);
    assert_eq!(
        infer_category_from_title("Shortly after the premiere"),
        None
    );
}

#[test]
fn test_infer_category_bts_trailer_priority() {
    assert_eq!(
        infer_category_from_title("Behind the Scenes Trailer for Movie X"),
        Some(ContentCategory::BehindTheScenes)
    );
}

#[test]
fn roman_to_int_takes_only_standard_numerals() {
    assert_eq!(roman_to_int("VV"), None);
    assert_eq!(roman_to_int("IIII"), None);
    assert_eq!(roman_to_int("IIX"), None);
    assert_eq!(roman_to_int("XVIIII"), None);
    assert_eq!(roman_to_int(""), None);
    assert_eq!(roman_to_int("ii"), Some(2));
    assert_eq!(roman_to_int("xviii"), Some(18));
    assert_eq!(roman_to_int("Xiv"), Some(14));
}
