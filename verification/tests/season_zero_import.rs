use extras_fetcher::season_zero_import::{ImportTally, Season0Importer};

#[test]
fn test_extract_episode_number_standard() {
    assert_eq!(Season0Importer::extract_episode_number("S00E01.mp4"), Some(1));
}

#[test]
fn test_extract_episode_number_double_digit() {
    assert_eq!(Season0Importer::extract_episode_number("S00E12.mp4"), Some(12));
}

#[test]
fn test_extract_episode_number_case_insensitive() {
    assert_eq!(Season0Importer::extract_episode_number("s00e05.mp4"), Some(5));
}

#[test]
fn test_extract_episode_number_with_title() {
    assert_eq!(
        Season0Importer::extract_episode_number("S00E03 - Special Title.mp4"),
        Some(3)
    );
}

#[test]
fn test_extract_episode_number_invalid() {
    assert_eq!(Season0Importer::extract_episode_number("S01E01.mp4"), None);
}

#[test]
fn test_sanitize_filename() {
    let sanitized = Season0Importer::sanitize_filename("Title: Part 1 (Special)");
    assert_eq!(sanitized, "Title_ Part 1 (Special)");
}

#[test]
fn test_sanitize_filename_with_slashes() {
    let sanitized = Season0Importer::sanitize_filename("Path/To/File");
    assert_eq!(sanitized, "Path_To_File");
}

#[test]
fn test_generate_season_zero_filename() {
    let filename = Season0Importer::generate_season_zero_filename("Breaking Bad", 5, "Pilot");
    assert_eq!(filename, "Breaking Bad - S00E05 - Pilot.mp4");
}

#[test]
fn test_generate_season_zero_filename_single_digit() {
    let filename = Season0Importer::generate_season_zero_filename("The Office", 1, "Unaired Pilot");
    assert_eq!(filename, "The Office - S00E01 - Unaired Pilot.mp4");
}

#[test]
fn test_generate_season_zero_filename_sanitizes_title() {
    let filename = Season0Importer::generate_season_zero_filename(
        "Game of Thrones",
        2,
        "Special: Behind the Scenes",
    );
    assert_eq!(
        filename,
        "Game of Thrones - S00E02 - Special_ Behind the Scenes.mp4"
    );
}

#[test]
fn generated_names_give_their_episode_back() {
    for n in 1u8..=99 {
        let name = Season0Importer::generate_season_zero_filename("Show 1", n, "Title x");
        assert!(name.ends_with(".mp4"));
        assert_eq!(Season0Importer::extract_episode_number(&name), Some(n));
        let mixed = format!("S00e{:02}.mp4", n);
        assert_eq!(Season0Importer::extract_episode_number(&mixed), Some(n));
    }
}

#[test]
fn sanitize_replaces_every_reserved_character() {
    let s = Season0Importer::sanitize_filename("a/b\\c:d*e?f\"g<h>i|j");
    assert_eq!(s, "a_b_c_d_e_f_g_h_i_j");
}

#[test]
fn tally_takes_each_episode_once() {
    let mut t = ImportTally::new();
    assert!(t.take_episode(3));
    assert!(!t.take_episode(3));
    assert!(t.take_episode(4));
    t.record(true);
    t.record(false);
    assert_eq!(t.imported, 1);
    assert_eq!(t.skipped, 2);
}
