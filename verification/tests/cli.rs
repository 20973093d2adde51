use extras_fetcher::cli::{
    banner_padding, parse_args, validate_config, CliArgs, CliConfig, Emphasis, RootState,
    BANNER_WIDTH,
};
use extras_fetcher::error::CliError;
use extras_fetcher::models::{all_sources, default_sources, ProcessingMode, Source};
use std::path::PathBuf;

fn make_args(root: PathBuf) -> CliArgs {
    CliArgs {
        root_directory: root,
        force: false,
        sources: default_sources(),
        all: false,
        concurrency: 2,
        verbose: false,
        single: false,
        series_only: false,
        movies_only: false,
        season_extras: false,
        specials: false,
        specials_folder: "Specials".to_string(),
        media_type: None,
        cookies_from_browser: None,
        mode: None,
        dry_run: false,
        json_progress: false,
        tui: false,
    }
}

fn shown(p: &PathBuf) -> String {
    format!("{:?}", p)
}

#[test]
fn test_cli_config_from_args() {
    let args = CliArgs {
        root_directory: PathBuf::from("/movies"),
        force: true,
        sources: vec![Source::Youtube],
        all: false,
        concurrency: 4,
        verbose: true,
        single: false,
        series_only: false,
        movies_only: false,
        season_extras: true,
        specials: true,
        specials_folder: "Specials".to_string(),
        media_type: Some("series".to_string()),
        cookies_from_browser: None,
        mode: None,
        dry_run: false,
        json_progress: true,
        tui: false,
    };
    let config = CliConfig::from_args(args);
    assert!(config.force);
    assert_eq!(config.sources, vec![Source::Youtube]);
    assert_eq!(config.concurrency, 4);
    assert!(config.verbose);
    assert!(!config.single);
    assert_eq!(config.processing_mode, ProcessingMode::Both);
    assert!(config.season_extras);
    assert!(config.specials);
    assert_eq!(config.media_type, Some("series".to_string()));
    assert!(config.json_progress);
}

#[test]
fn test_validate_config_valid_directory() {
    let args = make_args(PathBuf::from("/movies"));
    assert!(validate_config(&args, RootState::Directory, "\"/movies\"").is_ok());
}

#[test]
fn test_validate_config_nonexistent_directory() {
    let root = PathBuf::from("/nonexistent/path/that/does/not/exist");
    let args = make_args(root.clone());
    let result = validate_config(&args, RootState::Missing, &shown(&root));
    assert!(result.is_err());
    match result {
        Err(CliError::InvalidRootDir(msg)) => assert!(msg.contains("does not exist")),
        _ => panic!("Expected InvalidRootDir error"),
    }
}

#[test]
fn test_validate_config_file_instead_of_directory() {
    let root = PathBuf::from("/tmp/test_file.txt");
    let args = make_args(root.clone());
    let result = validate_config(&args, RootState::NotDirectory, &shown(&root));
    assert!(result.is_err());
    match result {
        Err(CliError::InvalidRootDir(msg)) => assert!(msg.contains("not a directory")),
        _ => panic!("Expected InvalidRootDir error"),
    }
}

#[test]
fn test_validate_config_zero_concurrency() {
    let mut args = make_args(PathBuf::from("/movies"));
    args.concurrency = 0;
    let result = validate_config(&args, RootState::Directory, "\"/movies\"");
    assert!(result.is_err());
    match result {
        Err(CliError::InvalidConcurrency(msg)) => assert!(msg.contains("at least 1")),
        _ => panic!("Expected InvalidConcurrency error"),
    }
}

#[test]
fn test_validate_config_default_values() {
    let args = make_args(PathBuf::from("/movies"));
    assert!(validate_config(&args, RootState::Directory, "\"/movies\"").is_ok());
    let config = CliConfig::from_args(args);
    assert!(!config.force);
    assert_eq!(config.sources, default_sources());
    assert_eq!(config.concurrency, 2);
    assert!(!config.verbose);
    assert!(!config.single);
    assert_eq!(config.processing_mode, ProcessingMode::Both);
    assert!(!config.season_extras);
    assert!(!config.specials);
    assert_eq!(config.media_type, None);
}

#[test]
fn test_all_flag_sets_all_sources() {
    let mut args = make_args(PathBuf::from("/movies"));
    args.all = true;
    let config = CliConfig::from_args(args);
    assert_eq!(config.sources, all_sources());
    assert!(config.sources.contains(&Source::Vimeo));
}

#[test]
fn test_all_flag_overrides_sources() {
    let mut args = make_args(PathBuf::from("/movies"));
    args.all = true;
    args.sources = vec![Source::Youtube];
    let config = CliConfig::from_args(args);
    assert_eq!(config.sources, all_sources());
}

#[test]
fn test_series_only_flag_sets_processing_mode() {
    let mut args = make_args(PathBuf::from("/movies"));
    args.series_only = true;
    let config = CliConfig::from_args(args);
    assert_eq!(config.processing_mode, ProcessingMode::SeriesOnly);
}

#[test]
fn test_movies_only_flag_sets_processing_mode() {
    let mut args = make_args(PathBuf::from("/movies"));
    args.movies_only = true;
    let config = CliConfig::from_args(args);
    assert_eq!(config.processing_mode, ProcessingMode::MoviesOnly);
}

#[test]
fn test_mutually_exclusive_flags_error() {
    let mut args = make_args(PathBuf::from("/movies"));
    args.series_only = true;
    args.movies_only = true;
    let result = validate_config(&args, RootState::Directory, "\"/movies\"");
    assert!(result.is_err());
    match result {
        Err(CliError::ParseError(msg)) => assert!(msg.contains("mutually exclusive")),
        _ => panic!("Expected ParseError for mutually exclusive flags"),
    }
}

#[test]
fn test_type_flag_movie_valid() {
    let mut args = make_args(PathBuf::from("/movies"));
    args.media_type = Some("movie".to_string());
    assert!(validate_config(&args, RootState::Directory, "\"/movies\"").is_ok());
}

#[test]
fn test_type_flag_series_valid() {
    let mut args = make_args(PathBuf::from("/movies"));
    args.media_type = Some("series".to_string());
    assert!(validate_config(&args, RootState::Directory, "\"/movies\"").is_ok());
}

#[test]
fn test_type_flag_invalid_value() {
    let mut args = make_args(PathBuf::from("/movies"));
    args.media_type = Some("invalid".to_string());
    let result = validate_config(&args, RootState::Directory, "\"/movies\"");
    assert!(result.is_err());
    match result {
        Err(CliError::ParseError(msg)) => assert!(msg.contains("Invalid --type value")),
        _ => panic!("Expected ParseError for invalid type"),
    }
}

#[test]
fn test_season_extras_flag() {
    let mut args = make_args(PathBuf::from("/movies"));
    args.season_extras = true;
    assert!(CliConfig::from_args(args).season_extras);
}

#[test]
fn test_specials_flag() {
    let mut args = make_args(PathBuf::from("/movies"));
    args.specials = true;
    assert!(CliConfig::from_args(args).specials);
}

#[test]
fn test_deprecated_mode_flag_returns_error() {
    let mut args = make_args(PathBuf::from("/movies"));
    args.mode = Some("youtube".to_string());
    match parse_args(args, RootState::Directory, "\"/movies\"") {
        Err(e @ CliError::DeprecatedFlag(_)) => assert!(e.message().contains("--mode")),
        _ => panic!("Expected DeprecatedFlag error"),
    }
}

#[test]
fn test_dry_run_flag_parsed_correctly() {
    let args = make_args(PathBuf::from("/movies"));
    assert!(!CliConfig::from_args(args).dry_run);
    let mut args = make_args(PathBuf::from("/movies"));
    args.dry_run = true;
    assert!(CliConfig::from_args(args).dry_run);
}

#[test]
fn test_json_progress_flag_parsed_correctly() {
    let mut args = make_args(PathBuf::from("/movies"));
    args.json_progress = true;
    assert!(CliConfig::from_args(args).json_progress);
}

#[test]
fn parse_args_checks_mode_before_the_root() {
    let mut args = make_args(PathBuf::from("/nope"));
    args.mode = Some("x".to_string());
    assert!(matches!(
        parse_args(args, RootState::Missing, "\"/nope\""),
        Err(CliError::DeprecatedFlag(_))
    ));
    let args = make_args(PathBuf::from("/nope"));
    match parse_args(args, RootState::Missing, "\"/nope\"") {
        Err(CliError::InvalidRootDir(m)) => assert_eq!(m, "Directory does not exist: \"/nope\""),
        _ => panic!("Expected InvalidRootDir"),
    }
    let ok = parse_args(make_args(PathBuf::from("/m")), RootState::Directory, "\"/m\"").unwrap();
    assert_eq!(ok.root_directory, PathBuf::from("/m"));
}

#[test]
fn series_only_wins_over_movies_only_in_the_config() {
    let mut args = make_args(PathBuf::from("/movies"));
    args.series_only = true;
    args.movies_only = true;
    assert_eq!(CliConfig::from_args(args).processing_mode, ProcessingMode::SeriesOnly);
}

#[test]
fn configuration_rows_follow_the_options() {
    let mut args = make_args(PathBuf::from("/m"));
    args.specials = true;
    args.dry_run = true;
    args.concurrency = 4;
    args.sources = vec![Source::Tmdb, Source::Youtube];
    let config = CliConfig::from_args(args);
    let rows = config.config_rows("\"/m\"");
    let labels: Vec<&str> = rows.iter().map(|r| r.label.as_str()).collect();
    assert_eq!(
        labels,
        vec![
            "Root Directory:",
            "Sources:",
            "Single Folder:",
            "Force Reprocess:",
            "Concurrency:",
            "Verbose:",
            "Processing Mode:",
            "Season Extras:",
            "Specials:",
            "Specials Folder:",
            "Dry Run:"
        ]
    );
    assert_eq!(rows[0].value, "\"/m\"");
    assert_eq!(rows[1].value, "tmdb, youtube");
    assert_eq!(rows[1].emphasis, Emphasis::Accent);
    assert_eq!(rows[2].value, "No");
    assert_eq!(rows[2].emphasis, Emphasis::Quiet);
    assert_eq!(rows[4].value, "4");
    assert_eq!(rows[6].value, "Both");
    assert_eq!(rows[8].value, "Yes");
    assert_eq!(rows[8].emphasis, Emphasis::Notice);
    assert_eq!(rows[9].value, "Specials");
    assert_eq!(rows[10].value, "Yes (discovery only)");
    assert_eq!(banner_padding("EXTRAS FETCHER"), (22, 23));
    let (l, r) = banner_padding("Version 0.1.0");
    assert_eq!(l + r + 13, BANNER_WIDTH);
}
