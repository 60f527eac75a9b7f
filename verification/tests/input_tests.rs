use vibeplayer::input::{char_width, InputMode, InputState};

#[test]
fn default_is_an_empty_line_in_normal_mode() {
    let input = InputState::default();
    assert_eq!(input.text, "");
    assert_eq!(input.cursor, 0);
    assert_eq!(input.mode, InputMode::Normal);
    assert!(input.is_well_formed());
}

#[test]
fn char_width_is_the_utf8_length() {
    assert_eq!(char_width('a'), 1);
    assert_eq!(char_width('\u{7f}'), 1);
    assert_eq!(char_width('\u{80}'), 2);
    assert_eq!(char_width('é'), 2);
    assert_eq!(char_width('\u{7ff}'), 2);
    assert_eq!(char_width('\u{800}'), 3);
    assert_eq!(char_width('日'), 3);
    assert_eq!(char_width('\u{ffff}'), 3);
    assert_eq!(char_width('\u{10000}'), 4);
    assert_eq!(char_width('🎵'), 4);
    for c in ['a', 'é', '日', '🎵'] {
        assert_eq!(char_width(c), c.len_utf8());
    }
}

#[test]
fn insert_appends_and_moves_the_caret() {
    let mut input = InputState::default();
    input.insert('h');
    input.insert('i');
    assert_eq!(input.text, "hi");
    assert_eq!(input.cursor, 2);
    input.insert('é');
    assert_eq!(input.text, "hié");
    assert_eq!(input.cursor, 4);
    input.insert('日');
    assert_eq!(input.cursor, 7);
    input.insert('🎵');
    assert_eq!(input.text, "hié日🎵");
    assert_eq!(input.cursor, 11);
    assert!(input.is_well_formed());
}

#[test]
fn insert_in_the_middle_goes_in_front_of_the_caret_char() {
    let mut input = InputState { text: "aé c".to_string(), cursor: 3, mode: InputMode::Editing };
    assert!(input.is_well_formed());
    input.insert('b');
    assert_eq!(input.text, "aéb c");
    assert_eq!(input.cursor, 4);
    assert_eq!(input.mode, InputMode::Editing);
}

#[test]
fn backspace_removes_the_char_in_front_of_the_caret() {
    let mut input = InputState::default();
    for c in "aé日🎵".chars() {
        input.insert(c);
    }
    assert_eq!(input.cursor, 10);
    input.backspace();
    assert_eq!(input.text, "aé日");
    assert_eq!(input.cursor, 6);
    input.backspace();
    assert_eq!(input.text, "aé");
    assert_eq!(input.cursor, 3);
    input.backspace();
    assert_eq!(input.text, "a");
    assert_eq!(input.cursor, 1);
    input.backspace();
    assert_eq!(input.text, "");
    assert_eq!(input.cursor, 0);
    input.backspace();
    assert_eq!(input.text, "");
    assert_eq!(input.cursor, 0);
}

#[test]
fn backspace_in_the_middle() {
    let mut input = InputState { text: "abc".to_string(), cursor: 2, mode: InputMode::Editing };
    input.backspace();
    assert_eq!(input.text, "ac");
    assert_eq!(input.cursor, 1);
}

#[test]
fn backspace_at_the_start_changes_nothing() {
    let mut input = InputState { text: "abc".to_string(), cursor: 0, mode: InputMode::Editing };
    input.backspace();
    assert_eq!(input.text, "abc");
    assert_eq!(input.cursor, 0);
}

#[test]
fn clear_empties_and_keeps_the_mode() {
    let mut input = InputState { text: "abc".to_string(), cursor: 3, mode: InputMode::Editing };
    input.clear();
    assert_eq!(input.text, "");
    assert_eq!(input.cursor, 0);
    assert_eq!(input.mode, InputMode::Editing);
}

#[test]
fn submit_hands_out_the_text_and_clears() {
    let mut input = InputState { text: "play jazz".to_string(), cursor: 9, mode: InputMode::Editing };
    let text = input.submit();
    assert_eq!(text, "play jazz");
    assert_eq!(input.text, "");
    assert_eq!(input.cursor, 0);
    assert_eq!(input.mode, InputMode::Editing);
}

#[test]
fn well_formedness_is_about_char_boundaries() {
    let inside = InputState { text: "aé".to_string(), cursor: 2, mode: InputMode::Normal };
    assert!(!inside.is_well_formed());
    let beyond = InputState { text: "aé".to_string(), cursor: 4, mode: InputMode::Normal };
    assert!(!beyond.is_well_formed());
    for cursor in [0usize, 1, 3] {
        let ok = InputState { text: "aé".to_string(), cursor, mode: InputMode::Normal };
        assert!(ok.is_well_formed());
    }
    let emoji = InputState { text: "🎵".to_string(), cursor: 2, mode: InputMode::Normal };
    assert!(!emoji.is_well_formed());
}

#[test]
fn input_clone_is_equal() {
    let input = InputState { text: "x".to_string(), cursor: 1, mode: InputMode::Editing };
    assert_eq!(input.clone(), input);
}
