use vibeplayer::library::{audio_file, stamp_from, Library, LibraryEntry, SongMeta};

fn entry(id: &str, url: &str, title: &str) -> LibraryEntry {
    LibraryEntry {
        video_id: id.to_string(),
        title: title.to_string(),
        artist: "artist".to_string(),
        url: url.to_string(),
        duration_ms: 213_500,
        file_path: format!("{}.mp3", id),
        downloaded_at: "2024-05-01T10:00:00+00:00".to_string(),
    }
}

fn meta() -> SongMeta {
    SongMeta {
        title: "Title".to_string(),
        artist: "Artist".to_string(),
        duration_ms: 213_000,
        video_id: "dQw4".to_string(),
    }
}

#[test]
fn new_library_is_empty() {
    let library = Library::new();
    assert_eq!(library.len(), 0);
    assert!(library.entries().is_empty());
    assert_eq!(library.find_by_url("u"), None);
}

#[test]
fn persist_then_lookup_returns_the_record() {
    let mut library = Library::new();
    library.add(entry("a", "https://x/a", "A"));
    let stored = entry("b", "https://x/b", "B");
    assert!(!library.add(stored.clone()));
    let found = library.find_by_url("https://x/b").unwrap();
    assert_eq!(found.title, stored.title);
    assert_eq!(found.artist, stored.artist);
    assert_eq!(found.duration_ms, stored.duration_ms);
    assert_eq!(found.file_path, stored.file_path);
    assert_eq!(found, &stored);
}

#[test]
fn add_replaces_the_record_with_the_same_identifier() {
    let mut library = Library::from_entries(vec![
        entry("a", "https://x/a", "A"),
        entry("b", "https://x/b", "B"),
        entry("c", "https://x/c", "C"),
    ]);
    assert!(library.add(entry("b", "https://x/b2", "B again")));
    assert_eq!(library.len(), 3);
    assert_eq!(
        library.entries(),
        &vec![
            entry("a", "https://x/a", "A"),
            entry("b", "https://x/b2", "B again"),
            entry("c", "https://x/c", "C"),
        ]
    );
    assert_eq!(library.find_by_url("https://x/b"), None);
    assert_eq!(library.find_by_url("https://x/b2").unwrap().title, "B again");
}

#[test]
fn add_is_idempotent() {
    let mut library = Library::new();
    library.add(entry("a", "u", "A"));
    library.add(entry("a", "u", "A"));
    assert_eq!(library.entries(), &vec![entry("a", "u", "A")]);
}

#[test]
fn lookup_finds_the_first_record_of_a_source() {
    let mut library = Library::new();
    library.add(entry("a", "same", "first"));
    library.add(entry("b", "same", "second"));
    assert_eq!(library.len(), 2);
    // an earlier record of the same source hides the one just stored
    assert_eq!(library.find_by_url("same").unwrap().title, "first");
}

#[test]
fn record_for_a_download() {
    let made = LibraryEntry::for_download(&meta(), "https://x/v", "stamp".to_string());
    assert_eq!(
        made,
        LibraryEntry {
            video_id: "dQw4".to_string(),
            title: "Title".to_string(),
            artist: "Artist".to_string(),
            url: "https://x/v".to_string(),
            duration_ms: 213_000,
            file_path: "dQw4.mp3".to_string(),
            downloaded_at: "stamp".to_string(),
        }
    );
}

#[test]
fn stamped_record_carries_the_date_in_rfc3339() {
    let made = LibraryEntry::stamped(&meta(), "https://x/v", 1_431_648_000, 0);
    assert_eq!(made.downloaded_at, "2015-05-15T00:00:00+00:00");
    assert_eq!(made.file_path, "dQw4.mp3");
    let fine = LibraryEntry::stamped(&meta(), "https://x/v", 1_431_648_001, 500_000_000);
    assert_eq!(fine.downloaded_at, "2015-05-15T00:00:01.500+00:00");
    let epoch = LibraryEntry::stamped(&meta(), "https://x/v", 0, 0);
    assert_eq!(epoch.downloaded_at, "1970-01-01T00:00:00+00:00");
}

#[test]
fn stamped_record_without_a_date_has_no_stamp() {
    let made = LibraryEntry::stamped(&meta(), "https://x/v", i64::MAX, 0);
    assert_eq!(made.downloaded_at, "");
    assert_eq!(made.title, "Title");
    let odd = LibraryEntry::stamped(&meta(), "https://x/v", 0, 2_000_000_000);
    assert_eq!(odd.downloaded_at, "");
}

#[test]
fn stamp_from_a_date_or_nothing() {
    assert_eq!(stamp_from(Some("x".to_string())), "x");
    assert_eq!(stamp_from(None), "");
}

#[test]
fn entry_and_meta_clone_are_equal() {
    let e = entry("a", "u", "A");
    assert_eq!(e.clone(), e);
    assert_eq!(meta().clone(), meta());
}

#[test]
fn audio_file_is_named_after_the_identifier() {
    assert_eq!(audio_file("dQw4"), "dQw4.mp3");
    assert_eq!(audio_file(""), ".mp3");
}

#[test]
fn hidden_record_of_the_same_content_still_round_trips() {
    let mut library = Library::new();
    library.add(entry("a", "same", "title"));
    let mut stored = entry("b", "same", "title");
    stored.file_path = "a.mp3".to_string();
    library.add(stored.clone());
    let found = library.find_by_url("same").unwrap();
    assert_eq!(found.video_id, "a");
    assert_eq!(found.title, stored.title);
    assert_eq!(found.artist, stored.artist);
    assert_eq!(found.duration_ms, stored.duration_ms);
    assert_eq!(found.file_path, stored.file_path);
}
