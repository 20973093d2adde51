//! The configuration file's record and the decisions around it: where it
//! lives, when a key must be asked for, and what an entered key must be.
use vstd::prelude::*;
use vstd::string::StringExecFns;
use std::path::PathBuf;
use crate::error::ConfigError;
use crate::text::{chars_of, string_of, trim_whitespace, trim_ws};

verus! {

/// Application configuration.
#[derive(Debug, Clone)]
pub struct Config {
    /// TMDB API key for content discovery (never to be logged or shown)
    pub tmdb_api_key: String,
    /// TheTVDB API key for Season 0 specials (never to be logged or shown)
    pub tvdb_api_key: Option<String>,
    /// Browser to take cookies from for yt-dlp (e.g. "chrome")
    pub cookies_from_browser: Option<String>,
    /// Vimeo personal access token (never to be logged or shown)
    pub vimeo_access_token: Option<String>,
}

/// The path `PathBuf::from` makes of a text.
pub uninterp spec fn path_of_text(text: Seq<char>) -> PathBuf;

/// Makes a path from its text (`PathBuf::from`); the path is opaque here,
/// and is named `path_of_text` of the text.
#[verifier::external_body]
fn path_from(text: &str) -> (r: PathBuf)
    ensures
        r == path_of_text(text@),
{
    PathBuf::from(text)
}

impl Config {
    /// The name of the configuration file in the current directory.
    pub fn default_path_text() -> (r: &'static str)
        ensures
            r@ == "config.cfg"@,
    {
        "config.cfg"
    }

    /// The configuration file's path: `config.cfg` in the current directory.
    pub fn default_path() -> (r: PathBuf)
        ensures
            r == path_of_text("config.cfg"@),
    {
        path_from(Self::default_path_text())
    }

    /// A new configuration with only the TMDB key set.
    pub fn with_api_key(api_key: String) -> (r: Config)
        ensures
            r.tmdb_api_key == api_key,
            r.tvdb_api_key is None,
            r.cookies_from_browser is None,
            r.vimeo_access_token is None,
    {
        Config {
            tmdb_api_key: api_key,
            tvdb_api_key: None,
            cookies_from_browser: None,
            vimeo_access_token: None,
        }
    }

    /// Whether the TheTVDB key must be asked for: it is required and missing.
    pub fn needs_tvdb_key(&self, require_tvdb_key: bool) -> (r: bool)
        ensures
            r == (require_tvdb_key && self.tvdb_api_key is None),
    {
        require_tvdb_key && self.tvdb_api_key.is_none()
    }

    /// Whether the Vimeo token must be asked for: it is required and missing.
    pub fn needs_vimeo_token(&self, require_vimeo_token: bool) -> (r: bool)
        ensures
            r == (require_vimeo_token && self.vimeo_access_token is None),
    {
        require_vimeo_token && self.vimeo_access_token.is_none()
    }

    /// Whether a failed load should lead to asking for a key: only when the
    /// file could not be read (a file that cannot be parsed is an error).
    pub fn should_prompt_after(error: &ConfigError) -> (r: bool)
        ensures
            r == (*error is ReadError),
    {
        match error {
            ConfigError::ReadError(_, _) => true,
            _ => false,
        }
    }

    /// An entered key or token: the line without surrounding whitespace;
    /// an error when nothing is left.
    pub fn accept_entered_key(line: &str) -> (r: Result<String, ConfigError>)
        ensures
            match r {
                Ok(k) => k@ == trim_ws(line@) && k@.len() > 0,
                Err(e) => e is EmptyApiKey && trim_ws(line@).len() == 0,
            },
    {
        let cs = chars_of(line);
        let t = trim_whitespace(&cs);
        if t.len() == 0 {
            return Err(ConfigError::EmptyApiKey);
        }
        Ok(string_of(&t))
    }
}

} // verus!
