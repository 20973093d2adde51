pub mod text;
pub mod fuzzy_matching;
pub mod paths;
pub mod models;
pub mod patterns;
pub mod title_matching;
pub mod deduplication;
pub mod tvdb;
pub mod monitor_policy;
pub mod special_searcher;
pub mod season_pack;
pub mod season_zero_import;
pub mod ytdlp;
pub mod youtube;
pub mod series_youtube;
pub mod bilibili;
pub mod downloader;
pub mod url_order;
pub mod orchestrator;
pub mod series_orchestrator;
pub mod error;
pub mod converter;
pub mod config;
pub mod json_output;
pub mod cli;
pub mod kinocheck;
pub mod series_cache;
pub mod tmdb;
pub mod series_tmdb;
pub mod api_step;
pub mod dailymotion;
pub mod vimeo;
pub mod archive;
pub mod special_validator;
pub mod id_bridge;
pub mod retry;
