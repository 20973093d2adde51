use extras_fetcher::error::{
    CliError, ConfigError, DownloadError, OrchestratorError, ProcessingError, ScanError,
    SeriesDiscoveryError, SeriesOrganizerError, SeriesScanError, ValidationError,
};

#[test]
fn test_series_scan_error_io() {
    let io_error = std::io::Error::new(std::io::ErrorKind::NotFound, "file not found");
    let error = SeriesScanError::Io(io_error);
    assert!(error.message().contains("IO error"));
}

#[test]
fn test_series_scan_error_invalid_structure() {
    let error = SeriesScanError::InvalidStructure("missing season folders".to_string());
    assert_eq!(
        error.message(),
        "Invalid series folder structure: missing season folders"
    );
}

#[test]
fn test_series_scan_error_parse_error() {
    let error = SeriesScanError::ParseError("invalid folder name format".to_string());
    assert_eq!(
        error.message(),
        "Failed to parse series name: invalid folder name format"
    );
}

#[test]
fn test_series_discovery_error_tmdb_api() {
    let error = SeriesDiscoveryError::TmdbApi("API rate limit exceeded".to_string());
    assert_eq!(error.message(), "TMDB API error: API rate limit exceeded");
}

#[test]
fn test_series_discovery_error_youtube_search() {
    let error = SeriesDiscoveryError::YoutubeSearch("yt-dlp not found".to_string());
    assert_eq!(error.message(), "YouTube search error: yt-dlp not found");
}

#[test]
fn test_series_discovery_error_not_found() {
    let error = SeriesDiscoveryError::NotFound("Breaking Bad".to_string());
    assert_eq!(error.message(), "Series not found: Breaking Bad");
}

#[test]
fn test_series_organizer_error_io() {
    let io_error = std::io::Error::new(std::io::ErrorKind::PermissionDenied, "access denied");
    let error = SeriesOrganizerError::Io(io_error);
    assert!(error.message().contains("IO error"));
}

#[test]
fn test_series_organizer_error_invalid_season() {
    let error = SeriesOrganizerError::InvalidSeason(100);
    assert_eq!(error.message(), "Invalid season number: 100");
}

#[test]
fn test_series_organizer_error_file_not_found() {
    let path = std::path::PathBuf::from("/path/to/file.mp4");
    let error = SeriesOrganizerError::FileNotFound(path);
    assert!(error.message().contains("File not found"));
}

#[test]
fn test_error_propagation_io_to_series_scan() {
    let io_error = std::io::Error::new(std::io::ErrorKind::Other, "disk error");
    let series_error: SeriesScanError = io_error.into();
    assert!(series_error.message().contains("IO error"));
}

#[test]
fn test_error_propagation_io_to_series_organizer() {
    let io_error = std::io::Error::new(std::io::ErrorKind::Other, "disk error");
    let organizer_error: SeriesOrganizerError = io_error.into();
    assert!(organizer_error.message().contains("IO error"));
}

#[test]
fn test_error_display_trait_series_scan() {
    let error = SeriesScanError::ParseError("test error".to_string());
    let display_string = error.message();
    assert_eq!(display_string, "Failed to parse series name: test error");
}

#[test]
fn test_error_display_trait_series_discovery() {
    let error = SeriesDiscoveryError::TmdbApi("test error".to_string());
    let display_string = error.message();
    assert_eq!(display_string, "TMDB API error: test error");
}

#[test]
fn test_error_display_trait_series_organizer() {
    let error = SeriesOrganizerError::InvalidSeason(50);
    let display_string = error.message();
    assert_eq!(display_string, "Invalid season number: 50");
}

#[test]
fn test_error_trait_implementation() {
    let error = SeriesScanError::ParseError("test".to_string());
    assert!(!error.message().is_empty());
}

#[test]
fn test_graceful_degradation_discovery_error() {
    let tmdb_error = SeriesDiscoveryError::TmdbApi("API down".to_string());
    let youtube_error = SeriesDiscoveryError::YoutubeSearch("network error".to_string());
    let _ = format!("TMDB failed: {}", tmdb_error.message());
    let _ = format!("YouTube failed: {}", youtube_error.message());
}

#[test]
fn test_partial_success_scenario() {
    let mut results = Vec::new();
    results.push(Ok::<(), SeriesOrganizerError>(()));
    results.push(Err(SeriesOrganizerError::InvalidSeason(100)));
    results.push(Ok::<(), SeriesOrganizerError>(()));
    let successes = results.iter().filter(|r| r.is_ok()).count();
    let failures = results.iter().filter(|r| r.is_err()).count();
    assert_eq!(successes, 2);
    assert_eq!(failures, 1);
}

#[test]
fn test_error_context_preservation() {
    let original_message = "Series 'Breaking Bad' not found in TMDB";
    let error = SeriesDiscoveryError::NotFound(original_message.to_string());
    let error_string = error.message();
    assert!(error_string.contains("Breaking Bad"));
    assert!(error_string.contains("not found"));
}

#[test]
fn test_series_scan_error_debug_format() {
    let error = SeriesScanError::ParseError("invalid format".to_string());
    let debug_string = format!("{:?}", error);
    assert!(debug_string.contains("ParseError"));
    assert!(debug_string.contains("invalid format"));
}

#[test]
fn test_series_discovery_error_debug_format() {
    let error = SeriesDiscoveryError::TmdbApi("timeout".to_string());
    let debug_string = format!("{:?}", error);
    assert!(debug_string.contains("TmdbApi"));
    assert!(debug_string.contains("timeout"));
}

#[test]
fn test_series_organizer_error_debug_format() {
    let path = std::path::PathBuf::from("/test/path");
    let error = SeriesOrganizerError::FileNotFound(path);
    let debug_string = format!("{:?}", error);
    assert!(debug_string.contains("FileNotFound"));
}

#[test]
fn cli_error_messages_carry_their_detail() {
    assert_eq!(
        CliError::InvalidRootDir("/x".to_string()).message(),
        "Invalid root directory: /x"
    );
    assert!(CliError::DeprecatedFlag("--mode".to_string())
        .message()
        .contains("--mode"));
}

#[test]
fn scan_error_from_io_keeps_the_io_message() {
    let e: ScanError = std::io::Error::new(std::io::ErrorKind::Other, "disk gone").into();
    let m = e.message();
    assert!(m.starts_with("IO error"));
    assert!(m.contains("disk gone"));
}

#[test]
fn processing_error_wraps_inner_messages() {
    let e: ProcessingError = DownloadError::Timeout.into();
    assert_eq!(e.message(), "Download error: Timeout");
    assert_eq!(
        OrchestratorError::Init("no root".to_string()).message(),
        "Initialization error: no root"
    );
}

#[test]
fn unit_variants_have_fixed_messages() {
    assert_eq!(ValidationError::UnsupportedCodec.message(), "Unsupported codec");
    assert_eq!(ConfigError::EmptyApiKey.message(), "API key cannot be empty");
}
