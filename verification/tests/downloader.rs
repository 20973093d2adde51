use extras_fetcher::downloader::{DownloadedFile, Downloader};

#[test]
fn test_sanitize_filename_ascii() {
    let input = "Title | Part 1: Test <File> Name*.mkv";
    let result = Downloader::sanitize_filename(input);
    assert_eq!(result, "Title - Part 1- Test -File- Name-.mkv");
}

#[test]
fn test_sanitize_filename_unicode() {
    let input = "Solo Leveling Season 2 -Arise from the Shadow- ｜ OFFICIAL TEASER TRAILER.mkv";
    let result = Downloader::sanitize_filename(input);
    assert_eq!(
        result,
        "Solo Leveling Season 2 -Arise from the Shadow- - OFFICIAL TEASER TRAILER.mkv"
    );
}

#[test]
fn test_sanitize_filename_mixed_unicode() {
    let input = "Title：Part／1＜Test＞？.mp4";
    let result = Downloader::sanitize_filename(input);
    assert_eq!(result, "Title-Part-1-Test-.mp4");
}

#[test]
fn test_sanitize_filename_quotation_marks() {
    let input = r#"Title "with" quotes and "curly" quotes.mkv"#;
    let result = Downloader::sanitize_filename(input);
    assert_eq!(result, "Title 'with' quotes and 'curly' quotes.mkv");
}

#[test]
fn hash_tag_is_eight_hex_digits() {
    assert_eq!(Downloader::hash_suffix(0xab), "_000000ab");
    assert_eq!(Downloader::output_template_name(0xdeadbeef), "%(title)s_deadbeef.%(ext)s");
}

#[test]
fn clean_filename_drops_tag_then_sanitizes() {
    assert_eq!(
        Downloader::clean_filename("A: B_000000ab.mp4", "_000000ab"),
        "A- B.mp4"
    );
    assert_eq!(Downloader::clean_filename("x?.mp4", ""), "x.mp4");
}

#[test]
fn partial_files_are_recognised() {
    assert!(Downloader::is_partial_file("v_000000ab.mp4", "_000000ab"));
    assert!(Downloader::is_partial_file("v.mp4.part", "_ffffffff"));
    assert!(Downloader::is_partial_file("v.tmp", "_ffffffff"));
    assert!(!Downloader::is_partial_file("v.mp4", "_ffffffff"));
}

#[test]
fn downloaded_file_choice() {
    let names = vec!["a.mp4".to_string(), "Trailer_0000000c.mp4".to_string()];
    assert_eq!(
        Downloader::choose_downloaded_file(&names, "x", "_0000000c"),
        DownloadedFile::Tagged(1)
    );
    let one = vec!["whatever.mkv".to_string()];
    assert_eq!(
        Downloader::choose_downloaded_file(&one, "x", "_0000000c"),
        DownloadedFile::Only(0)
    );
    let two = vec!["random.mp4".to_string(), "The Matrix Reloaded.mp4".to_string()];
    assert_eq!(
        Downloader::choose_downloaded_file(&two, "Matrix Reloaded Trailer", "_0000000c"),
        DownloadedFile::BestMatch(1)
    );
    let none = vec!["a.mp4".to_string(), "b.mp4".to_string()];
    assert_eq!(
        Downloader::choose_downloaded_file(&none, "Matrix", "_0000000c"),
        DownloadedFile::Newest
    );
    assert_eq!(Downloader::title_match_score("The Matrix Reloaded", "the matrix.mp4"), 1);
}

#[test]
fn timeout_message_names_the_limit() {
    let d = Downloader::with_timeout(std::path::PathBuf::from("/tmp"), 42);
    assert_eq!(d.timeout_message(), "Download timeout after 42 seconds");
    assert_eq!(Downloader::new(std::path::PathBuf::from("/tmp")).download_timeout_secs, 300);
}

#[test]
fn sanitizing_twice_changes_nothing() {
    let once = Downloader::sanitize_filename("a|b：c？d\"e.mkv");
    assert_eq!(once, "a-b-cd'e.mkv");
    assert_eq!(Downloader::sanitize_filename(&once), once);
}

#[test]
fn url_hash_is_stable_and_tells_urls_apart() {
    let a = Downloader::url_hash("https://www.youtube.com/watch?v=abc");
    assert_eq!(a, Downloader::url_hash("https://www.youtube.com/watch?v=abc"));
    assert_ne!(a, Downloader::url_hash("https://www.youtube.com/watch?v=abd"));
    let suffix = Downloader::hash_suffix(a);
    assert!(suffix.len() >= 9 && suffix.len() <= 17 && suffix.starts_with('_'));
    assert!(Downloader::output_template_name(a).contains(&suffix));
}
