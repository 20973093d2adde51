use extras_fetcher::models::{ContentCategory, SeriesEntry, SeriesExtra, SourceType};
use extras_fetcher::series_orchestrator::{
    contains_non_latin, extended_from_base, latest_season, season_level_extras, season_on_disk,
    season_zero_all_searches, season_zero_plan, season_zero_searches, series_level_extras,
    SourceMode,
};
use extras_fetcher::tvdb::{TvdbEpisode, TvdbEpisodeExtended};
use std::path::PathBuf;

fn create_test_series() -> SeriesEntry {
    SeriesEntry {
        path: PathBuf::from("/series/Breaking Bad (2008)"),
        title: "Breaking Bad".to_string(),
        year: Some(2008),
        has_done_marker: false,
        seasons: vec![1, 2, 3, 4, 5],
    }
}

fn special(number: u8, name: &str, is_movie: Option<bool>) -> TvdbEpisodeExtended {
    TvdbEpisodeExtended {
        id: number as u64,
        number,
        name: name.to_string(),
        name_eng: None,
        aired: None,
        overview: None,
        absolute_number: None,
        airs_before_season: None,
        airs_after_season: None,
        airs_before_episode: None,
        is_movie,
    }
}

#[test]
fn test_series_extra_creation() {
    let extra = SeriesExtra {
        series_id: "bb".to_string(),
        season_number: None,
        category: ContentCategory::Trailer,
        title: "Series Trailer".to_string(),
        url: "https://example.com/video".to_string(),
        source_type: SourceType::TMDB,
        local_path: None,
        duration_secs: None,
    };
    assert_eq!(extra.series_id, "bb");
    assert_eq!(extra.season_number, None);
    assert_eq!(extra.category, ContentCategory::Trailer);
}

#[test]
fn test_season_specific_extra_creation() {
    let extra = SeriesExtra {
        series_id: "bb".to_string(),
        season_number: Some(1),
        category: ContentCategory::BehindTheScenes,
        title: "Season 1 Behind the Scenes".to_string(),
        url: "https://example.com/video".to_string(),
        source_type: SourceType::YouTube,
        local_path: None,
        duration_secs: None,
    };
    assert_eq!(extra.series_id, "bb");
    assert_eq!(extra.season_number, Some(1));
    assert_eq!(extra.category, ContentCategory::BehindTheScenes);
}

#[test]
fn test_series_entry_display() {
    let series = create_test_series();
    assert_eq!(series.display_string(), "Breaking Bad (2008)");
}

#[test]
fn test_series_entry_without_year() {
    let series = SeriesEntry {
        path: PathBuf::from("/series/Breaking Bad"),
        title: "Breaking Bad".to_string(),
        year: None,
        has_done_marker: false,
        seasons: vec![1, 2, 3, 4, 5],
    };
    assert_eq!(series.display_string(), "Breaking Bad");
}

#[test]
fn source_modes() {
    assert!(SourceMode::All.queries_tmdb());
    assert!(!SourceMode::YoutubeOnly.queries_tmdb());
}

#[test]
fn non_latin_detection() {
    assert!(contains_non_latin("俺だけレベルアップな件"));
    assert!(contains_non_latin("Ёлки"));
    assert!(!contains_non_latin("Solo Leveling"));
    assert!(!contains_non_latin(""));
}

#[test]
fn seasons_on_disk() {
    assert_eq!(latest_season(&[1, 5, 3]), 5);
    assert_eq!(latest_season(&[]), 0);
    assert!(season_on_disk(&[1, 2], 2));
    assert!(!season_on_disk(&[1, 2], 3));
}

#[test]
fn extended_episode_from_base_has_no_extra_metadata() {
    let e = extended_from_base(TvdbEpisode {
        id: 7,
        number: 3,
        name: "Special".to_string(),
        aired: Some("2010-01-01".to_string()),
        overview: None,
    });
    assert_eq!(e.id, 7);
    assert_eq!(e.number, 3);
    assert_eq!(e.name, "Special");
    assert!(e.is_movie.is_none() && e.absolute_number.is_none() && e.name_eng.is_none());
}

#[test]
fn special_searches_use_the_standard_query_and_one_result() {
    let a = special(5, "Holiday Special", None);
    let b = special(12, "Movie Night", Some(true));
    let monitored = vec![&a, &b];
    let (extras, meta) = season_zero_searches("Breaking Bad", Some(2008), &monitored);
    assert_eq!(extras.len(), 2);
    assert_eq!(meta.len(), 2);
    assert_eq!(extras[0].url, "ytsearch1:Breaking Bad S00E05 Holiday Special");
    assert_eq!(extras[0].title, "S00E05 - Holiday Special");
    assert_eq!(extras[0].series_id, "Breaking_Bad_2008");
    assert_eq!(extras[0].season_number, Some(0));
    assert_eq!(extras[0].source_type, SourceType::TheTVDB);
    assert_eq!(extras[1].title, "S00E12 - Movie Night");
    assert_eq!(meta[1].number, 12);
}

#[test]
fn all_special_searches_cover_every_query() {
    let a = special(5, "Holiday Special", Some(true));
    let monitored = vec![&a];
    let extras = season_zero_all_searches("Breaking Bad", None, &monitored);
    assert_eq!(extras.len(), 3);
    assert_eq!(extras[0].url, "ytsearch5:Breaking Bad S00E05 Holiday Special");
    assert_eq!(extras[1].url, "ytsearch5:Breaking Bad Holiday Special");
    assert_eq!(extras[2].url, "ytsearch5:Breaking Bad Holiday Special movie");
    assert_eq!(extras[2].series_id, "Breaking_Bad_0");
}

fn extra(title: &str, st: SourceType) -> SeriesExtra {
    SeriesExtra {
        series_id: "bb".to_string(),
        season_number: None,
        category: ContentCategory::Featurette,
        title: title.to_string(),
        url: format!("https://www.youtube.com/watch?v={}", title.len()),
        source_type: st,
        local_path: None,
        duration_secs: None,
    }
}

#[test]
fn season_zero_plan_needs_tvdb_and_skips_excluded() {
    let eps = vec![special(1, "Pilot Special", None), special(2, "Reunion", None), special(3, "Movie", Some(true))];
    let (none, meta) = season_zero_plan(false, "Breaking Bad", Some(2008), &eps, &[1, 2], &[]);
    assert!(none.is_empty());
    assert!(meta.is_empty());
    let (searches, meta) = season_zero_plan(true, "Breaking Bad", Some(2008), &eps, &[1, 2], &[2]);
    assert_eq!(searches.len(), 2);
    assert_eq!(meta.len(), 2);
    assert_eq!(meta[0].number, 1);
    assert_eq!(meta[1].number, 3);
    assert_eq!(searches[0].title, "S00E01 - Pilot Special");
    assert_eq!(searches[1].title, "S00E03 - Movie");
    assert!(searches[0].url.starts_with("ytsearch1:"));
    assert_eq!(searches[0].season_number, Some(0));
    assert_eq!(searches[0].source_type, SourceType::TheTVDB);
}

#[test]
fn series_level_extras_follow_the_mode() {
    let tmdb = vec![extra("Season 9 Trailer", SourceType::TMDB), extra("Official Trailer", SourceType::TMDB)];
    let yt = vec![
        extra("Season 8 Cast Interview", SourceType::YouTube),
        extra("Cast Interview", SourceType::YouTube),
    ];
    let all = series_level_extras(SourceMode::All, tmdb.clone(), yt.clone(), &[1, 2, 3]);
    let titles: Vec<&str> = all.iter().map(|e| e.title.as_str()).collect();
    assert_eq!(titles, vec!["Official Trailer", "Cast Interview"]);
    let only = series_level_extras(SourceMode::YoutubeOnly, tmdb, yt, &[1, 2, 3]);
    assert_eq!(only.len(), 1);
    assert_eq!(only[0].title, "Cast Interview");
    assert_eq!(only[0].source_type, SourceType::YouTube);
}

#[test]
fn season_level_extras_need_the_season_on_disk() {
    let found = vec![extra("Season 2 Featurette", SourceType::YouTube), extra("Season 7 Recap", SourceType::YouTube)];
    assert!(season_level_extras(4, found.clone(), &[1, 2, 3]).is_empty());
    let kept = season_level_extras(2, found, &[1, 2, 3]);
    assert_eq!(kept.len(), 1);
    assert_eq!(kept[0].title, "Season 2 Featurette");
}
