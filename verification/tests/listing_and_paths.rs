use ease_remote_storage::listing::sort_entries;
use ease_remote_storage::listing::Entry;
use ease_remote_storage::listing::FsRecord;
use ease_remote_storage::listing::ListingSession;
use ease_remote_storage::paths::join_path;
use ease_remote_storage::paths::normalize_path;

fn file_record(name: &str, size: u64) -> FsRecord {
    FsRecord {
        name: name.to_string(),
        size: Some(size),
        is_dir: false,
        sign: "sign".to_string(),
        type_code: Some(4),
        raw_url: None,
    }
}

fn dir_record(name: &str) -> FsRecord {
    FsRecord {
        name: name.to_string(),
        size: None,
        is_dir: true,
        sign: String::new(),
        type_code: None,
        raw_url: None,
    }
}

#[test]
fn normalize_path_prepends_one_slash() {
    assert_eq!(normalize_path("a.bin"), "/a.bin");
    assert_eq!(normalize_path("/a.bin"), "/a.bin");
    assert_eq!(normalize_path(""), "/");
}

#[test]
fn join_path_handles_root_and_trailing_slashes() {
    assert_eq!(join_path("/", "a.bin"), "/a.bin");
    assert_eq!(join_path("", "a.bin"), "/a.bin");
    assert_eq!(join_path("/music", "song.mp3"), "/music/song.mp3");
    assert_eq!(join_path("/music/", "song.mp3"), "/music/song.mp3");
    assert_eq!(join_path("/music//", "song.mp3"), "/music/song.mp3");
}

#[test]
fn one_page_directory_with_one_file_of_size_five() {
    // A one-page directory holding one file of size 5 yields one entry with
    // the joined absolute path.
    let mut session = ListingSession::start("/");
    let done = session.push_page(vec![file_record("a.bin", 5)], Some(1));
    assert!(done);
    let entries = session.finish();
    assert_eq!(entries.len(), 1);
    assert!(!entries[0].is_dir);
    assert_eq!(entries[0].size, Some(5));
    assert_eq!(entries[0].path, "/a.bin");
    assert_eq!(entries[0].name, "a.bin");
}

#[test]
fn pagination_continues_until_total_reached() {
    let mut session = ListingSession::start("/music");
    assert_eq!(session.page, 1);
    let done = session.push_page(vec![file_record("a.mp3", 1)], Some(2));
    assert!(!done);
    assert_eq!(session.page, 2);
    let done = session.push_page(vec![file_record("b.mp3", 2)], Some(2));
    assert!(done);
    let entries = session.finish();
    assert_eq!(entries.len(), 2);
}

#[test]
fn missing_total_stops_after_first_page() {
    let mut session = ListingSession::start("/music");
    let done = session.push_page(vec![file_record("a.mp3", 1)], None);
    assert!(done);
}

#[test]
fn directories_sort_before_files_each_group_by_path() {
    let mut session = ListingSession::start("/");
    let done = session.push_page(
        vec![
            file_record("zz.bin", 1),
            dir_record("beta"),
            file_record("aa.bin", 2),
            dir_record("alpha"),
        ],
        Some(4),
    );
    assert!(done);
    let entries = session.finish();
    let paths: Vec<&str> = entries.iter().map(|e| e.path.as_str()).collect();
    assert_eq!(paths, vec!["/alpha", "/beta", "/aa.bin", "/zz.bin"]);
    assert!(entries[0].is_dir && entries[1].is_dir);
    assert!(!entries[2].is_dir && !entries[3].is_dir);
    for w in paths.windows(2) {
        assert_ne!(w[0], w[1]);
    }
}

#[test]
fn sort_entries_keeps_every_entry() {
    let make = |path: &str, is_dir: bool| Entry {
        name: path.to_string(),
        path: path.to_string(),
        size: if is_dir { None } else { Some(1) },
        is_dir,
    };
    let sorted = sort_entries(vec![
        make("/c", false),
        make("/b", true),
        make("/a", false),
    ]);
    let paths: Vec<&str> = sorted.iter().map(|e| e.path.as_str()).collect();
    assert_eq!(paths, vec!["/b", "/a", "/c"]);
}

#[test]
fn repeated_paths_keep_only_the_first_entry() {
    let mut session = ListingSession::start("/");
    let done = session.push_page(
        vec![
            file_record("a.bin", 5),
            file_record("a.bin", 7),
            dir_record("x"),
        ],
        Some(3),
    );
    assert!(done);
    let entries = session.finish();
    assert_eq!(entries.len(), 2);
    assert_eq!(entries[0].path, "/x");
    assert_eq!(entries[1].path, "/a.bin");
    assert_eq!(entries[1].size, Some(5));
}

#[test]
fn a_directory_and_a_file_sharing_a_path_yield_one_entry() {
    let mut session = ListingSession::start("/");
    let done = session.push_page(vec![dir_record("y"), file_record("y", 3)], Some(2));
    assert!(done);
    let entries = session.finish();
    assert_eq!(entries.len(), 1);
    assert_eq!(entries[0].path, "/y");
    assert!(entries[0].is_dir);
}

#[test]
fn percent_encoded_names_are_decoded_for_display_only() {
    let mut session = ListingSession::start("/docs");
    let done = session.push_page(vec![file_record("%E6%9B%B4%E6%96%B0", 3)], Some(1));
    assert!(done);
    let entries = session.finish();
    assert_eq!(entries[0].name, "更新");
    // The path keeps the raw, still-encoded name.
    assert_eq!(entries[0].path, "/docs/%E6%9B%B4%E6%96%B0");
}

#[test]
fn undecodable_name_falls_back_to_the_raw_name() {
    let mut session = ListingSession::start("/");
    let done = session.push_page(vec![file_record("%FF.bin", 1)], Some(1));
    assert!(done);
    let entries = session.finish();
    assert_eq!(entries[0].name, "%FF.bin");
}

#[test]
fn type_code_one_marks_a_directory_without_a_size() {
    let mut record = file_record("folder", 7);
    record.type_code = Some(1);
    let mut session = ListingSession::start("/");
    session.push_page(vec![record], Some(1));
    let entries = session.finish();
    assert!(entries[0].is_dir);
    assert_eq!(entries[0].size, None);
}

#[test]
fn file_without_reported_size_gets_zero() {
    let mut record = file_record("empty.bin", 0);
    record.size = None;
    let mut session = ListingSession::start("/");
    session.push_page(vec![record], Some(1));
    let entries = session.finish();
    assert!(!entries[0].is_dir);
    assert_eq!(entries[0].size, Some(0));
}
