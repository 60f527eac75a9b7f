use vibeplayer::library::SongMeta;
use vibeplayer::parse::{parse_search_line, search_query, SearchLine};
use vibeplayer::song::{Song, SongStatus};
use vibeplayer::state::AppState;
use vibeplayer::text::{characters, joined, same_text};

#[test]
fn context_of_a_new_session() {
    let state = AppState::new();
    assert_eq!(
        state.build_context(),
        "Now playing: nothing\nLibrary: empty\nQueue: empty\nVolume: 70\nPaused: no\n"
    );
}

#[test]
fn context_of_a_busy_session() {
    let mut state = AppState::new();
    state.library = vec![
        Song::new_ready("Lib One", "x", "l1", "f", 1),
        Song::new_ready("Lib Two", "x", "l2", "f", 1),
    ];
    let mut played = Song::new_queued("Old", "", "q4");
    played.status = SongStatus::Played;
    let mut playing = Song::new_queued("Cur", "", "q5");
    playing.status = SongStatus::Playing;
    state.queue = vec![
        Song::new_queued("First", "", "q1"),
        Song::new_downloading("q2"),
        Song::new_ready("Third", "x", "q3", "f", 1),
        played,
        playing,
    ];
    state.playback_started(Song::new_ready("Song", "Band", "u", "f", 1), 0);
    state.volume = 5;
    state.paused = true;
    assert_eq!(
        state.build_context(),
        "Now playing: Song - Band\n\
         Library:\n  1. Lib One\n  2. Lib Two\n\
         Queue:\n  1. First (Queued)\n  2. Loading... (Downloading)\n  3. Third (Ready)\n  \
         4. Old (Played)\n  5. Cur (Playing)\n\
         Volume: 5\nPaused: yes\n"
    );
}

#[test]
fn context_numbers_go_beyond_nine() {
    let mut state = AppState::new();
    for i in 0..11 {
        state.enqueue_track(&format!("t{}", i), "u", None);
    }
    let text = state.build_context();
    assert!(text.contains("  9. t8 (Downloading)\n  10. t9 (Downloading)\n  11. t10 (Downloading)\n"));
}

#[test]
fn search_line_with_three_fields() {
    assert_eq!(
        parse_search_line("A Song\thttps://x/watch?v=1\t213"),
        Some(SearchLine {
            title: "A Song".to_string(),
            url: "https://x/watch?v=1".to_string(),
            duration: Some("213".to_string()),
        })
    );
}

#[test]
fn search_line_with_two_fields() {
    assert_eq!(
        parse_search_line("A Song\thttps://x/watch?v=1"),
        Some(SearchLine {
            title: "A Song".to_string(),
            url: "https://x/watch?v=1".to_string(),
            duration: None,
        })
    );
}

#[test]
fn search_line_without_a_tab_is_unreadable() {
    assert_eq!(parse_search_line("no tabs here"), None);
    assert_eq!(parse_search_line(""), None);
}

#[test]
fn search_line_edge_cases() {
    assert_eq!(
        parse_search_line("\t"),
        Some(SearchLine { title: String::new(), url: String::new(), duration: None })
    );
    assert_eq!(
        parse_search_line("t\tu\t"),
        Some(SearchLine {
            title: "t".to_string(),
            url: "u".to_string(),
            duration: Some(String::new()),
        })
    );
    assert_eq!(
        parse_search_line("t\tu\t1\t2"),
        Some(SearchLine {
            title: "t".to_string(),
            url: "u".to_string(),
            duration: Some("1\t2".to_string()),
        })
    );
    assert_eq!(
        parse_search_line("日本語\tü\tNA"),
        Some(SearchLine {
            title: "日本語".to_string(),
            url: "ü".to_string(),
            duration: Some("NA".to_string()),
        })
    );
}

#[test]
fn search_line_agrees_with_splitn() {
    for line in ["a\tb\tc", "a\tb", "\tb\t", "a\t\tc\td", "x"] {
        let parts: Vec<&str> = line.splitn(3, '\t').collect();
        let expected = if parts.len() >= 2 {
            Some(SearchLine {
                title: parts[0].to_string(),
                url: parts[1].to_string(),
                duration: parts.get(2).map(|s| s.to_string()),
            })
        } else {
            None
        };
        assert_eq!(parse_search_line(line), expected);
    }
}

#[test]
fn metadata_from_four_lines() {
    let lines: Vec<String> =
        ["Title", "Uploader", "213", "dQw4"].iter().map(|s| s.to_string()).collect();
    assert_eq!(
        SongMeta::from_lines(&lines, 213_000),
        SongMeta {
            title: "Title".to_string(),
            artist: "Uploader".to_string(),
            duration_ms: 213_000,
            video_id: "dQw4".to_string(),
        }
    );
}

#[test]
fn metadata_with_missing_lines() {
    assert_eq!(
        SongMeta::from_lines(&vec![], 0),
        SongMeta {
            title: "Unknown".to_string(),
            artist: "Unknown".to_string(),
            duration_ms: 0,
            video_id: "unknown".to_string(),
        }
    );
    let three: Vec<String> = ["T", "A", "1"].iter().map(|s| s.to_string()).collect();
    let meta = SongMeta::from_lines(&three, 1_000);
    assert_eq!(meta.title, "T");
    assert_eq!(meta.artist, "A");
    assert_eq!(meta.video_id, "unknown");
    let one: Vec<String> = vec!["T".to_string()];
    assert_eq!(SongMeta::from_lines(&one, 0).artist, "Unknown");
}

#[test]
fn search_query_names_count_and_words() {
    assert_eq!(search_query(3, "lofi beats"), "ytsearch3:lofi beats");
    assert_eq!(search_query(0, ""), "ytsearch0:");
    assert_eq!(search_query(u32::MAX, "q"), "ytsearch4294967295:q");
}

#[test]
fn text_helpers() {
    assert!(same_text("abc", "abc"));
    assert!(same_text("", ""));
    assert!(!same_text("abc", "abd"));
    assert!(!same_text("abc", "ab"));
    assert!(!same_text("é", "e"));
    assert!(same_text("日本", "日本"));
    assert_eq!(joined("ab", "cd"), "abcd");
    assert_eq!(joined("", ""), "");
    assert_eq!(characters("aé日"), vec!['a', 'é', '日']);
    assert_eq!(characters(""), Vec::<char>::new());
}
