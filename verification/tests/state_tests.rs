use vibeplayer::analysis::AudioFeatures;
use vibeplayer::command::{clamp_volume, Action, PlayerCommand};
use vibeplayer::input::InputMode;
use vibeplayer::now_playing::NowPlaying;
use vibeplayer::song::{Song, SongStatus};
use vibeplayer::state::{AgentStatus, AppState, FocusedPanel};

fn queued(name: &str) -> Song {
    Song::new_queued(name, "", name)
}

fn downloading(name: &str) -> Song {
    let mut s = Song::new_queued(name, "", name);
    s.status = SongStatus::Downloading;
    s
}

fn ready(name: &str) -> Song {
    Song::new_ready(name, "artist", name, "file.mp3", 180_000)
}

fn unresolved(name: &str) -> Song {
    let mut s = Song::new_queued(name, "", name);
    s.status = SongStatus::Ready;
    s
}

fn state_with_queue(queue: Vec<Song>) -> AppState {
    let mut state = AppState::new();
    state.queue = queue;
    state
}

#[test]
fn new_session_is_idle() {
    let state = AppState::new();
    assert!(state.queue.is_empty());
    assert!(state.library.is_empty());
    assert_eq!(state.current, None);
    assert_eq!(state.input.text, "");
    assert_eq!(state.input.mode, InputMode::Normal);
    assert_eq!(state.agent_status, AgentStatus::Idle);
    assert_eq!(state.volume, 70);
    assert!(!state.paused);
    assert_eq!(state.audio_features, AudioFeatures::default());
    assert_eq!(state.matrix_rain.tick(), 0);
    assert!(!state.should_quit);
    assert!(state.pending_commands.is_empty());
    assert_eq!(state.status_message, None);
    assert_eq!(state.focused_panel, FocusedPanel::Library);
    assert_eq!(state.library_cursor, 0);
    assert_eq!(state.queue_cursor, 0);
    assert_eq!(state.playback_position, 0);
    assert_eq!(state.progress_bar_area, None);
}

#[test]
fn clamp_cursors_brings_cursors_into_bounds() {
    let mut state = state_with_queue(vec![queued("a"), queued("b")]);
    state.library = vec![ready("x"), ready("y"), ready("z")];
    state.queue_cursor = 7;
    state.library_cursor = 3;
    state.clamp_cursors();
    assert_eq!(state.queue_cursor, 1);
    assert_eq!(state.library_cursor, 2);
    state.queue_cursor = 1;
    state.library_cursor = 0;
    state.clamp_cursors();
    assert_eq!(state.queue_cursor, 1);
    assert_eq!(state.library_cursor, 0);
    state.queue.clear();
    state.library.clear();
    state.queue_cursor = 1;
    state.library_cursor = usize::MAX;
    state.clamp_cursors();
    assert_eq!(state.queue_cursor, 0);
    assert_eq!(state.library_cursor, 0);
}

#[test]
fn cursor_moves_stay_inside_the_focused_panel() {
    let mut state = state_with_queue(vec![queued("a"), queued("b")]);
    state.library = vec![ready("x"), ready("y"), ready("z")];
    state.move_cursor_up();
    assert_eq!(state.library_cursor, 0);
    state.move_cursor_down();
    state.move_cursor_down();
    assert_eq!(state.library_cursor, 2);
    state.move_cursor_down();
    assert_eq!(state.library_cursor, 2);
    assert_eq!(state.queue_cursor, 0);
    state.switch_panel_right();
    assert_eq!(state.focused_panel, FocusedPanel::Queue);
    state.move_cursor_down();
    state.move_cursor_down();
    assert_eq!(state.queue_cursor, 1);
    assert_eq!(state.library_cursor, 2);
    state.move_cursor_up();
    assert_eq!(state.queue_cursor, 0);
    state.switch_panel_left();
    assert_eq!(state.focused_panel, FocusedPanel::Library);
}

#[test]
fn cursor_down_in_an_empty_panel_changes_nothing() {
    let mut state = AppState::new();
    state.move_cursor_down();
    assert_eq!(state.library_cursor, 0);
    state.switch_panel_right();
    state.move_cursor_down();
    assert_eq!(state.queue_cursor, 0);
}

#[test]
fn cursor_down_from_beyond_the_end_lands_on_the_last_item() {
    let mut state = state_with_queue(vec![queued("a"), queued("b")]);
    state.focused_panel = FocusedPanel::Queue;
    state.queue_cursor = usize::MAX;
    state.move_cursor_down();
    assert_eq!(state.queue_cursor, 1);
}

#[test]
fn first_ready_index_passes_over_what_is_not_ready() {
    let state = state_with_queue(vec![queued("a"), downloading("b"), ready("c"), ready("d")]);
    assert_eq!(state.first_ready_index(), Some(2));
    let none = state_with_queue(vec![queued("a"), downloading("b")]);
    assert_eq!(none.first_ready_index(), None);
    assert_eq!(AppState::new().first_ready_index(), None);
}

#[test]
fn next_ready_song_takes_the_first_ready_and_reclamps() {
    let mut state = state_with_queue(vec![queued("a"), ready("b"), ready("c")]);
    state.queue_cursor = 2;
    let next = state.next_ready_song();
    assert_eq!(next, Some(ready("b")));
    assert_eq!(state.queue, vec![queued("a"), ready("c")]);
    assert_eq!(state.queue_cursor, 1);
    let next = state.next_ready_song();
    assert_eq!(next, Some(ready("c")));
    assert_eq!(state.queue, vec![queued("a")]);
    assert_eq!(state.queue_cursor, 0);
    assert_eq!(state.next_ready_song(), None);
    assert_eq!(state.queue, vec![queued("a")]);
}

#[test]
fn commands_leave_in_the_order_they_came() {
    let mut state = AppState::new();
    state.push_command(PlayerCommand::Pause);
    state.push_command(PlayerCommand::SetVolume(30));
    state.push_command(PlayerCommand::Skip);
    let taken = state.take_commands();
    assert_eq!(
        taken,
        vec![PlayerCommand::Pause, PlayerCommand::SetVolume(30), PlayerCommand::Skip]
    );
    assert!(state.pending_commands.is_empty());
    assert!(state.take_commands().is_empty());
}

#[test]
fn play_file_hands_out_the_track_and_waits_for_the_player() {
    let mut state = AppState::new();
    let action = state.apply_command(
        PlayerCommand::PlayFile {
            path: "/c/x.mp3".to_string(),
            title: "T".to_string(),
            artist: "A".to_string(),
            url: "u".to_string(),
            duration_ms: 180_000,
        },
        5_000,
    );
    let mut expected = Song::new_queued("T", "A", "u");
    expected.file_path = Some("/c/x.mp3".to_string());
    expected.duration = Some(180_000);
    assert_eq!(action, Action::Play(expected.clone()));
    // a failure of the player leaves no trace
    assert_eq!(state, AppState::new());
    state.paused = true;
    state.playback_started(expected.clone(), 5_000);
    assert_eq!(state.current, Some(NowPlaying::start(expected, 5_000)));
    assert!(!state.paused);
    assert_eq!(state.current.as_ref().unwrap().elapsed(5_000), 0);
}

#[test]
fn skip_stops_and_clears_the_active_track() {
    let mut state = AppState::new();
    state.playback_started(ready("a"), 0);
    let action = state.apply_command(PlayerCommand::Skip, 10);
    assert_eq!(action, Action::Stop);
    assert_eq!(state.current, None);
}

#[test]
fn pause_then_resume_five_seconds_later_keeps_elapsed() {
    let mut state = AppState::new();
    state.playback_started(ready("a"), 1_000);
    assert_eq!(state.apply_command(PlayerCommand::Pause, 31_000), Action::Pause);
    assert!(state.paused);
    let at_pause = state.current.as_ref().unwrap().elapsed(31_000);
    assert_eq!(at_pause, 30_000);
    assert_eq!(state.apply_command(PlayerCommand::Resume, 36_000), Action::Resume);
    assert!(!state.paused);
    assert_eq!(state.current.as_ref().unwrap().elapsed(36_000), at_pause);
}

#[test]
fn pause_without_a_track_only_sets_the_flag() {
    let mut state = AppState::new();
    assert_eq!(state.apply_command(PlayerCommand::Pause, 1), Action::Pause);
    assert!(state.paused);
    assert_eq!(state.current, None);
    assert_eq!(state.apply_command(PlayerCommand::Resume, 2), Action::Resume);
    assert!(!state.paused);
}

#[test]
fn set_volume_is_clamped_not_rejected() {
    let mut state = AppState::new();
    assert_eq!(state.apply_command(PlayerCommand::SetVolume(30), 0), Action::SetVolume(30));
    assert_eq!(state.volume, 30);
    assert_eq!(state.apply_command(PlayerCommand::SetVolume(100), 0), Action::SetVolume(100));
    assert_eq!(state.volume, 100);
    assert_eq!(state.apply_command(PlayerCommand::SetVolume(101), 0), Action::SetVolume(100));
    assert_eq!(state.volume, 100);
    assert_eq!(state.apply_command(PlayerCommand::SetVolume(255), 0), Action::SetVolume(100));
    assert_eq!(state.volume, 100);
    assert_eq!(state.apply_command(PlayerCommand::SetVolume(0), 0), Action::SetVolume(0));
    assert_eq!(state.volume, 0);
    assert_eq!(clamp_volume(200), 100);
    assert_eq!(clamp_volume(99), 99);
}

#[test]
fn auto_advance_skips_unready_and_starts_first_ready() {
    // queue = [A(Queued), B(Ready, file, 180 s)], the active track has ended
    let a = queued("A");
    let mut b = Song::new_queued("B", "", "B");
    b.status = SongStatus::Ready;
    b.file_path = Some("b.mp3".to_string());
    b.duration = Some(180_000);
    let mut state = state_with_queue(vec![a.clone(), b.clone()]);
    state.playback_started(ready("previous"), 0);
    let action = state.auto_advance(true);
    assert_eq!(action, Action::PlayQueued(b.clone()));
    // the track stays in the queue until the player has started it
    assert_eq!(state.queue, vec![a.clone(), b.clone()]);
    assert_eq!(state.current.as_ref().unwrap().song, ready("previous"));
    if let Action::PlayQueued(song) = action {
        state.queued_playback_started(song, 200_000);
    }
    assert_eq!(state.queue, vec![a]);
    let np = state.current.as_ref().unwrap();
    assert_eq!(np.song, b);
    assert_eq!(np.elapsed(200_000), 0);
    assert!(!state.paused);
}

#[test]
fn failed_start_after_auto_advance_leaves_the_state_unchanged() {
    let build = || {
        let mut state = state_with_queue(vec![queued("A"), ready("B"), ready("C")]);
        state.queue_cursor = 2;
        state.playback_started(ready("previous"), 0);
        state
    };
    let mut state = build();
    assert_eq!(state.auto_advance(true), Action::PlayQueued(ready("B")));
    // the player fails to open the file: nothing is reported back
    assert_eq!(state, build());
    // the next tick offers the same track again
    assert_eq!(state.auto_advance(true), Action::PlayQueued(ready("B")));
    assert_eq!(state, build());
}

#[test]
fn queued_playback_started_takes_the_first_entry_alike() {
    let mut state = state_with_queue(vec![downloading("B"), ready("B"), ready("B"), queued("C")]);
    state.queue_cursor = 3;
    state.queued_playback_started(ready("B"), 50);
    assert_eq!(state.queue, vec![downloading("B"), ready("B"), queued("C")]);
    assert_eq!(state.queue_cursor, 2);
    assert_eq!(state.current, Some(NowPlaying::start(ready("B"), 50)));
}

#[test]
fn queued_playback_started_after_the_entry_left_the_queue() {
    let mut state = state_with_queue(vec![queued("A")]);
    state.paused = true;
    state.queued_playback_started(ready("B"), 50);
    assert_eq!(state.queue, vec![queued("A")]);
    assert_eq!(state.current, Some(NowPlaying::start(ready("B"), 50)));
    assert!(!state.paused);
}

#[test]
fn auto_advance_waits_while_nothing_is_active() {
    let mut b = ready("B");
    b.file_path = Some("b.mp3".to_string());
    let mut state = state_with_queue(vec![queued("A"), b.clone()]);
    assert_eq!(state.auto_advance(true), Action::Idle);
    assert_eq!(state.queue, vec![queued("A"), b]);
    assert_eq!(state.current, None);
}

#[test]
fn auto_advance_waits_while_the_player_has_audio() {
    let mut state = state_with_queue(vec![ready("B")]);
    state.playback_started(ready("previous"), 0);
    assert_eq!(state.auto_advance(false), Action::Idle);
    assert_eq!(state.queue, vec![ready("B")]);
    assert_eq!(state.current.as_ref().unwrap().song, ready("previous"));
}

#[test]
fn auto_advance_becomes_idle_without_a_ready_track() {
    let mut state = state_with_queue(vec![queued("A"), downloading("B")]);
    state.playback_started(ready("previous"), 0);
    assert_eq!(state.auto_advance(true), Action::Idle);
    assert_eq!(state.current, None);
    assert_eq!(state.queue, vec![queued("A"), downloading("B")]);
}

#[test]
fn auto_advance_leaves_an_unresolved_ready_track_in_place() {
    let mut state = state_with_queue(vec![queued("A"), unresolved("B"), ready("C")]);
    state.playback_started(ready("previous"), 0);
    assert_eq!(state.auto_advance(true), Action::Idle);
    assert_eq!(state.queue, vec![queued("A"), unresolved("B"), ready("C")]);
    assert_eq!(state.current.as_ref().unwrap().song, ready("previous"));
}

#[test]
fn auto_advance_reclamps_the_queue_cursor() {
    let mut state = state_with_queue(vec![queued("A"), ready("B")]);
    state.queue_cursor = 1;
    state.playback_started(ready("previous"), 0);
    assert_eq!(state.auto_advance(true), Action::PlayQueued(ready("B")));
    assert_eq!(state.queue_cursor, 1);
    state.queued_playback_started(ready("B"), 10);
    assert_eq!(state.queue, vec![queued("A")]);
    assert_eq!(state.queue_cursor, 0);
}

#[test]
fn skip_takes_effect_before_auto_advance() {
    let mut state = state_with_queue(vec![ready("B")]);
    state.playback_started(ready("previous"), 0);
    state.push_command(PlayerCommand::Skip);
    for command in state.take_commands() {
        state.apply_command(command, 10);
    }
    assert_eq!(state.auto_advance(true), Action::Idle);
    assert_eq!(state.queue, vec![ready("B")]);
    assert_eq!(state.current, None);
}

#[test]
fn set_position_needs_an_active_track() {
    let mut state = AppState::new();
    state.set_position(500);
    assert_eq!(state.playback_position, 0);
    state.playback_started(ready("a"), 0);
    state.set_position(500);
    assert_eq!(state.playback_position, 500);
}

#[test]
fn record_features_stores_the_snapshot_and_ticks() {
    let mut state = AppState::new();
    let features = AudioFeatures { rms: 1, bass: 2, mid: 3, treble: 4, is_beat: true };
    state.record_features(features);
    assert_eq!(state.audio_features, features);
    assert_eq!(state.matrix_rain.tick(), 1);
    state.record_features(AudioFeatures::default());
    assert_eq!(state.matrix_rain.tick(), 2);
}

#[test]
fn agent_status_clone_is_equal() {
    let status = AgentStatus::Acting("skip".to_string());
    assert_eq!(status.clone(), status);
    assert_eq!(AgentStatus::Thinking.clone(), AgentStatus::Thinking);
}
