use extras_fetcher::config::Config;
use extras_fetcher::error::ConfigError;
use std::path::PathBuf;

#[test]
fn test_config_default_path() {
    let path = Config::default_path();
    assert_eq!(path, PathBuf::from("config.cfg"));
}

#[test]
fn new_config_holds_only_the_tmdb_key() {
    let c = Config::with_api_key("k".to_string());
    assert_eq!(c.tmdb_api_key, "k");
    assert!(c.tvdb_api_key.is_none());
    assert!(c.cookies_from_browser.is_none());
    assert!(c.vimeo_access_token.is_none());
}

#[test]
fn missing_keys_are_asked_only_when_required() {
    let mut c = Config::with_api_key("k".to_string());
    assert!(c.needs_tvdb_key(true));
    assert!(!c.needs_tvdb_key(false));
    c.tvdb_api_key = Some("t".to_string());
    assert!(!c.needs_tvdb_key(true));
    assert!(c.needs_vimeo_token(true));
    c.vimeo_access_token = Some("v".to_string());
    assert!(!c.needs_vimeo_token(true));
}

#[test]
fn entered_keys_are_trimmed_and_must_not_be_empty() {
    assert_eq!(Config::accept_entered_key("  abc \n").unwrap(), "abc");
    assert!(matches!(
        Config::accept_entered_key(" \t\n"),
        Err(ConfigError::EmptyApiKey)
    ));
    assert!(matches!(Config::accept_entered_key(""), Err(ConfigError::EmptyApiKey)));
}

#[test]
fn only_unreadable_files_lead_to_a_prompt() {
    let read = ConfigError::ReadError(
        PathBuf::from("config.cfg"),
        std::io::Error::new(std::io::ErrorKind::NotFound, "missing"),
    );
    assert!(Config::should_prompt_after(&read));
    assert!(!Config::should_prompt_after(&ConfigError::EmptyApiKey));
}
