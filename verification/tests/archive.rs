use extras_fetcher::archive::{ArchiveOrgDiscoverer, ArchiveOrgDoc};
use extras_fetcher::models::{ContentCategory, SourceType};

#[test]
fn test_build_general_query() {
    let query = ArchiveOrgDiscoverer::build_general_query("The Matrix", 1999);
    assert!(query.contains("title:\"The Matrix\""));
    assert!(query.contains("year:1999"));
    assert!(query.contains("mediatype:movies"));
    assert!(query.contains("subject:trailer"));
    assert!(query.contains("subject:featurette"));
}

#[test]
fn test_build_dvdxtras_query() {
    let query = ArchiveOrgDiscoverer::build_dvdxtras_query("Shrek");
    assert!(query.contains("collection:DVDXtras"));
    assert!(query.contains("title:\"Shrek\""));
    assert!(query.contains("description:\"Shrek\""));
}

#[test]
fn test_map_subjects_trailer() {
    let subjects = vec!["Trailer".to_string(), "Movie".to_string()];
    assert_eq!(
        ArchiveOrgDiscoverer::map_subjects(&subjects),
        Some(ContentCategory::Trailer)
    );
}

#[test]
fn test_map_subjects_behind_the_scenes() {
    let subjects = vec!["Behind the Scenes".to_string()];
    assert_eq!(
        ArchiveOrgDiscoverer::map_subjects(&subjects),
        Some(ContentCategory::BehindTheScenes)
    );
    let subjects2 = vec!["Making of".to_string()];
    assert_eq!(
        ArchiveOrgDiscoverer::map_subjects(&subjects2),
        Some(ContentCategory::BehindTheScenes)
    );
}

#[test]
fn test_map_subjects_deleted_scene() {
    let subjects = vec!["Deleted Scene".to_string()];
    assert_eq!(
        ArchiveOrgDiscoverer::map_subjects(&subjects),
        Some(ContentCategory::DeletedScene)
    );
}

#[test]
fn test_map_subjects_featurette() {
    let subjects = vec!["Featurette".to_string()];
    assert_eq!(
        ArchiveOrgDiscoverer::map_subjects(&subjects),
        Some(ContentCategory::Featurette)
    );
    let subjects2 = vec!["epk".to_string()];
    assert_eq!(
        ArchiveOrgDiscoverer::map_subjects(&subjects2),
        Some(ContentCategory::Featurette)
    );
}

#[test]
fn test_map_subjects_interview() {
    let subjects = vec!["Interview".to_string()];
    assert_eq!(
        ArchiveOrgDiscoverer::map_subjects(&subjects),
        Some(ContentCategory::Interview)
    );
    let subjects2 = vec!["Q&A".to_string()];
    assert_eq!(
        ArchiveOrgDiscoverer::map_subjects(&subjects2),
        Some(ContentCategory::Interview)
    );
}

#[test]
fn test_map_subjects_clip_defaults_to_featurette() {
    let subjects = vec!["Clip".to_string()];
    assert_eq!(
        ArchiveOrgDiscoverer::map_subjects(&subjects),
        Some(ContentCategory::Featurette)
    );
}

#[test]
fn test_map_subjects_unknown() {
    let subjects = vec!["Random".to_string()];
    assert_eq!(ArchiveOrgDiscoverer::map_subjects(&subjects), None);
}

#[test]
fn test_infer_category_from_title_bts() {
    assert_eq!(
        ArchiveOrgDiscoverer::infer_category_from_text("Movie BTS Footage", None),
        Some(ContentCategory::BehindTheScenes)
    );
    assert_eq!(
        ArchiveOrgDiscoverer::infer_category_from_text("Behind the Scenes", None),
        Some(ContentCategory::BehindTheScenes)
    );
    assert_eq!(
        ArchiveOrgDiscoverer::infer_category_from_text("Making of the Movie", None),
        Some(ContentCategory::BehindTheScenes)
    );
}

#[test]
fn test_infer_category_from_title_deleted() {
    assert_eq!(
        ArchiveOrgDiscoverer::infer_category_from_text("Deleted Scene 1", None),
        Some(ContentCategory::DeletedScene)
    );
}

#[test]
fn archive_test_infer_category_from_title_interview() {
    assert_eq!(
        ArchiveOrgDiscoverer::infer_category_from_text("Cast Interview", None),
        Some(ContentCategory::Interview)
    );
}

#[test]
fn test_infer_category_from_description() {
    assert_eq!(
        ArchiveOrgDiscoverer::infer_category_from_text(
            "Movie Extra",
            Some("Behind the scenes footage from the set")
        ),
        Some(ContentCategory::BehindTheScenes)
    );
}

#[test]
fn test_infer_category_epk() {
    assert_eq!(
        ArchiveOrgDiscoverer::infer_category_from_text("EPK Content", None),
        Some(ContentCategory::Featurette)
    );
    assert_eq!(
        ArchiveOrgDiscoverer::infer_category_from_text("Bonus Features", None),
        Some(ContentCategory::Featurette)
    );
}

#[test]
fn test_doc_to_video_source_with_subjects() {
    let doc = ArchiveOrgDoc {
        identifier: "test-video".to_string(),
        title: "Test Behind the Scenes".to_string(),
        subject: vec!["Behind the Scenes".to_string()],
        description: None,
        collection: vec![],
    };
    let source = ArchiveOrgDiscoverer::doc_to_video_source(doc);
    assert!(source.is_some());
    let source = source.expect("should have source");
    assert_eq!(source.url, "https://archive.org/details/test-video");
    assert_eq!(source.category, ContentCategory::BehindTheScenes);
    assert_eq!(source.source_type, SourceType::ArchiveOrg);
}

#[test]
fn test_doc_to_video_source_dvdxtras_fallback() {
    let doc = ArchiveOrgDoc {
        identifier: "dvdxtras-item".to_string(),
        title: "Some DVD Extra".to_string(),
        subject: vec![],
        description: None,
        collection: vec!["DVDXtras".to_string()],
    };
    let source = ArchiveOrgDiscoverer::doc_to_video_source(doc);
    assert!(source.is_some());
    let source = source.expect("should have source");
    assert_eq!(source.category, ContentCategory::Featurette);
}

#[test]
fn test_doc_to_video_source_infers_from_title() {
    let doc = ArchiveOrgDoc {
        identifier: "inferred-item".to_string(),
        title: "Making of the Movie".to_string(),
        subject: vec![],
        description: None,
        collection: vec![],
    };
    let source = ArchiveOrgDiscoverer::doc_to_video_source(doc);
    assert!(source.is_some());
    let source = source.expect("should have source");
    assert_eq!(source.category, ContentCategory::BehindTheScenes);
}

#[test]
fn test_doc_to_video_source_no_category() {
    let doc = ArchiveOrgDoc {
        identifier: "unknown-item".to_string(),
        title: "Random Video".to_string(),
        subject: vec![],
        description: None,
        collection: vec!["other-collection".to_string()],
    };
    let source = ArchiveOrgDiscoverer::doc_to_video_source(doc);
    assert!(source.is_none());
}

#[test]
fn dvdxtras_query_has_no_year_and_general_query_has_one() {
    for year in [1900u16, 1999, 2099] {
        let q = ArchiveOrgDiscoverer::build_general_query("Test Movie", year);
        assert!(q.contains(&format!("year:{}", year)));
    }
    assert!(!ArchiveOrgDiscoverer::build_dvdxtras_query("Some Title").contains("year:"));
}

#[test]
fn general_search_only_before_2010() {
    assert!(ArchiveOrgDiscoverer::uses_general_search(2009));
    assert!(!ArchiveOrgDiscoverer::uses_general_search(2010));
    let u = ArchiveOrgDiscoverer::search_url("a b");
    assert!(u.starts_with("https://archive.org/advancedsearch.php?q=a%20b&"));
    assert!(u.ends_with("rows=15&output=json"));
}

#[test]
fn merged_docs_are_ordered_by_identifier_first_kept() {
    let doc = |id: &str, title: &str, subject: &str| ArchiveOrgDoc {
        identifier: id.to_string(),
        title: title.to_string(),
        subject: if subject.is_empty() { vec![] } else { vec![subject.to_string()] },
        description: None,
        collection: vec![],
    };
    let docs = vec![
        doc("b", "B first", "Trailer"),
        doc("a", "Random Video", ""),
        doc("b", "B again", "Making of"),
        doc("c", "Making of C", ""),
    ];
    let r = ArchiveOrgDiscoverer::sources_from_docs(docs);
    assert_eq!(r.len(), 2);
    assert_eq!(r[0].url, "https://archive.org/details/b");
    assert_eq!(r[0].title, "B first");
    assert_eq!(r[0].category, ContentCategory::Trailer);
    assert_eq!(r[1].url, "https://archive.org/details/c");
    assert_eq!(r[1].category, ContentCategory::BehindTheScenes);
}
