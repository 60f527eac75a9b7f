//! What the keyboard and the pointer do to the session.

use vstd::prelude::*;
use crate::command::{Action, ActionView, MAX_VOLUME};
use crate::input::InputMode;
use crate::song::{song_views, Song, SongView};
use crate::state::{AppState, AppStateView, FocusedPanel};

verus! {

/// Length of a seek step, in milliseconds.
pub const SEEK_STEP_MS: u64 = 10_000;

/// Width of a volume step.
pub const VOLUME_STEP: u8 = 5;

/// A key press, as far as the session tells keys apart.
#[derive(Debug, Clone, Copy, PartialEq, Eq, Structural)]
pub enum Key {
    /// A character key, but for control and `c` together.
    Char(char),
    Enter,
    Backspace,
    Esc,
    Tab,
    Up,
    Down,
    Left,
    Right,
    /// Control and `c` together.
    Interrupt,
    /// Any other key.
    Other,
}

/// The volume one step up, at most the highest.
pub open spec fn volume_up(volume: u8) -> u8 {
    if volume + VOLUME_STEP >= MAX_VOLUME {
        MAX_VOLUME
    } else {
        (volume + VOLUME_STEP) as u8
    }
}

/// The volume one step down, at least zero.
pub open spec fn volume_down(volume: u8) -> u8 {
    if volume >= VOLUME_STEP {
        (volume - VOLUME_STEP) as u8
    } else {
        0
    }
}

/// The position one seek step ahead.
pub open spec fn seek_forward(position: u64) -> u64 {
    if position + SEEK_STEP_MS <= u64::MAX {
        (position + SEEK_STEP_MS) as u64
    } else {
        u64::MAX
    }
}

/// The position one seek step back, at least the start.
pub open spec fn seek_backward(position: u64) -> u64 {
    if position >= SEEK_STEP_MS {
        (position - SEEK_STEP_MS) as u64
    } else {
        0
    }
}

/// The position, in a track of `duration` milliseconds, that a click on
/// column `offset` of a bar `width` columns wide stands for.
pub open spec fn click_position(duration: u64, offset: int, width: int) -> int {
    duration * offset / width
}

impl AppStateView {
    /// The state with held and continued exchanged, at `now`.
    pub open spec fn toggled(self, now: u64) -> AppStateView {
        if self.paused {
            self.continued(now)
        } else {
            self.held(now)
        }
    }

    /// What the player has to do when held and continued are exchanged.
    pub open spec fn toggle_action(self) -> ActionView {
        if self.paused {
            ActionView::Resume
        } else {
            ActionView::Pause
        }
    }

    /// The track under the cursor of the focused panel, where the cursor
    /// points at one that can be started: `Ready`, and with a local file.
    pub open spec fn selection(self) -> Option<SongView> {
        match self.focused_panel {
            FocusedPanel::Library => if 0 <= self.library_cursor < self.library.len()
                && self.library[self.library_cursor].playable() {
                Some(self.library[self.library_cursor])
            } else {
                None
            },
            FocusedPanel::Queue => if 0 <= self.queue_cursor < self.queue.len()
                && self.queue[self.queue_cursor].playable() {
                Some(self.queue[self.queue_cursor])
            } else {
                None
            },
        }
    }

    /// What the caller has to do for the selected track `song`: start it
    /// as a track of the queue where the queue panel has the focus, and as
    /// a track of no queue otherwise.
    pub open spec fn selection_action(self, song: SongView) -> ActionView {
        match self.focused_panel {
            FocusedPanel::Library => ActionView::Play(song),
            FocusedPanel::Queue => ActionView::PlayQueued(song),
        }
    }

    /// The state after the fallback of the play key at `now`: while a track
    /// is active, held and continued are exchanged.
    pub open spec fn fallback_toggled(self, now: u64) -> AppStateView {
        if self.current is Some {
            self.toggled(now)
        } else {
            self
        }
    }

    /// What the player has to do for the fallback of the play key.
    pub open spec fn fallback_action(self) -> ActionView {
        if self.current is Some {
            self.toggle_action()
        } else {
            ActionView::Idle
        }
    }

    /// Whether `key` edits the input line: a character or a backspace,
    /// while the input line has the keyboard.
    pub open spec fn edits_line(self, key: Key) -> bool {
        self.input.mode == InputMode::Editing && (key is Char || key == Key::Backspace)
    }

    /// The state after `key` has been pressed at `now` while the input line
    /// has the keyboard.
    pub open spec fn after_editing_key(self, key: Key, now: u64) -> AppStateView {
        match key {
            Key::Interrupt => AppStateView { should_quit: true, ..self },
            Key::Enter => AppStateView { input: self.input.cleared(), ..self },
            Key::Char(c) => AppStateView { input: self.input.typed(c), ..self },
            Key::Backspace => AppStateView { input: self.input.erased(), ..self },
            Key::Esc | Key::Tab => AppStateView {
                input: crate::input::InputView { mode: InputMode::Normal, ..self.input },
                ..self
            },
            _ => self,
        }
    }

    /// The state after `key` has been pressed at `now` while the player
    /// controls have the keyboard.
    pub open spec fn after_control_key(self, key: Key, now: u64) -> AppStateView {
        match key {
            Key::Interrupt | Key::Char('q') => AppStateView { should_quit: true, ..self },
            Key::Tab | Key::Char('i') | Key::Char('/') => AppStateView {
                input: crate::input::InputView { mode: InputMode::Editing, ..self.input },
                ..self
            },
            Key::Char('p') => self.toggled(now),
            Key::Char('n') => self.stopped(),
            Key::Char('+') | Key::Char('=') => AppStateView {
                volume: volume_up(self.volume),
                ..self
            },
            Key::Char('-') => AppStateView { volume: volume_down(self.volume), ..self },
            Key::Up => self.cursor_moved_up(),
            Key::Down => self.cursor_moved_down(),
            Key::Left => AppStateView { focused_panel: FocusedPanel::Library, ..self },
            Key::Right => AppStateView { focused_panel: FocusedPanel::Queue, ..self },
            Key::Char(' ') => if self.selection() is Some {
                self
            } else {
                self.fallback_toggled(now)
            },
            _ => self,
        }
    }

    /// The state after `key` has been pressed at `now`.
    pub open spec fn after_key(self, key: Key, now: u64) -> AppStateView {
        match self.input.mode {
            InputMode::Editing => self.after_editing_key(key, now),
            InputMode::Normal => self.after_control_key(key, now),
        }
    }

    /// What the caller has to do after `key` has been pressed.
    pub open spec fn key_action(self, key: Key) -> ActionView {
        match self.input.mode {
            InputMode::Editing => match key {
                Key::Enter => if self.input.text.len() > 0 {
                    ActionView::Submit(self.input.text)
                } else {
                    ActionView::Idle
                },
                _ => ActionView::Idle,
            },
            InputMode::Normal => match key {
                Key::Char('p') => self.toggle_action(),
                Key::Char('n') => ActionView::Stop,
                Key::Char('f') => if self.current is Some {
                    ActionView::Seek(seek_forward(self.playback_position))
                } else {
                    ActionView::Idle
                },
                Key::Char('b') => if self.current is Some {
                    ActionView::Seek(seek_backward(self.playback_position))
                } else {
                    ActionView::Idle
                },
                Key::Char('+') | Key::Char('=') => ActionView::SetVolume(volume_up(self.volume)),
                Key::Char('-') => ActionView::SetVolume(volume_down(self.volume)),
                Key::Char(' ') => match self.selection() {
                    Some(song) => self.selection_action(song),
                    None => self.fallback_action(),
                },
                _ => ActionView::Idle,
            },
        }
    }

    /// The position that a click at (`row`, `column`) asks to seek to: the
    /// click has to land on the progress bar of an active track whose
    /// duration is known and not zero.
    pub open spec fn click_target(self, row: u16, column: u16) -> Option<u64> {
        match (self.progress_bar_area, self.current) {
            (Some((bar_row, first, end)), Some(np)) => {
                if row == bar_row && first <= column < end && np.song.duration is Some
                    && np.song.duration->0 > 0 {
                    Some(
                        click_position(np.song.duration->0, column - first, end - first) as u64,
                    )
                } else {
                    None
                }
            },
            _ => None,
        }
    }
}

/// A click inside the bar stands for a position inside the track: the first
/// column for the start, and no column for the end or beyond.
pub proof fn lemma_click_position_in_track(duration: u64, offset: int, width: int)
    requires
        0 <= offset < width,
    ensures
        0 <= click_position(duration, offset, width) <= duration,
        click_position(duration, 0, width) == 0,
        duration > 0 ==> click_position(duration, offset, width) < duration,
{
    assert(0 <= duration * offset / width <= duration) by (nonlinear_arith)
        requires
            0 <= offset < width,
            duration >= 0,
    ;
    assert(duration * 0 / width == 0) by (nonlinear_arith)
        requires
            width > 0,
    ;
    if duration > 0 {
        assert(duration * offset / width < duration) by (nonlinear_arith)
            requires
                0 <= offset < width,
                duration > 0,
        ;
    }
}

/// Positions further right on the bar stand for later positions in the track.
pub proof fn lemma_click_position_monotonic(duration: u64, a: int, b: int, width: int)
    requires
        0 <= a <= b,
        0 < width,
    ensures
        click_position(duration, a, width) <= click_position(duration, b, width),
{
    assert(duration * a / width <= duration * b / width) by (nonlinear_arith)
        requires
            0 <= a <= b,
            0 < width,
            duration >= 0,
    ;
}

impl AppState {
    /// Exchanges held and continued at `now`, whether or not a track is active.
    pub fn toggle_pause(&mut self, now: u64) -> (action: Action)
        ensures
            final(self)@ == old(self)@.toggled(now),
            action@ == old(self)@.toggle_action(),
    {
        if self.paused {
            self.carry_on(now);
            Action::Resume
        } else {
            self.hold(now);
            Action::Pause
        }
    }

    /// The fallback of the play key, for when no track was started: while a
    /// track is active, exchanges held and continued at `now`.
    ///
    /// The caller also makes this call when the player could not start the
    /// track that [`AppState::handle_key`] handed out for the play key.
    pub fn selection_not_played(&mut self, now: u64) -> (action: Action)
        ensures
            final(self)@ == old(self)@.fallback_toggled(now),
            action@ == old(self)@.fallback_action(),
    {
        if self.current.is_some() {
            self.toggle_pause(now)
        } else {
            Action::Idle
        }
    }

    /// The track under the cursor of the focused panel, if the cursor points
    /// at one that is `Ready` and has a local file. The track is copied and
    /// stays where it is.
    pub fn selected_track(&self) -> (track: Option<Song>)
        ensures
            match track {
                Some(song) => self@.selection() == Some(song@),
                None => self@.selection() is None,
            },
    {
        match self.focused_panel {
            FocusedPanel::Library => {
                let idx = self.library_cursor;
                if idx < self.library.len() && self.library[idx].is_playable() {
                    Some(self.library[idx].clone())
                } else {
                    None
                }
            },
            FocusedPanel::Queue => {
                let idx = self.queue_cursor;
                if idx < self.queue.len() && self.queue[idx].is_playable() {
                    Some(self.queue[idx].clone())
                } else {
                    None
                }
            },
        }
    }

    /// Whether `key` edits the input line, which asks for the caret to
    /// stand on a character boundary.
    pub fn key_edits_line(&self, key: Key) -> (edits: bool)
        ensures
            edits == self@.edits_line(key),
    {
        match self.input.mode {
            InputMode::Editing => match key {
                Key::Char(_) => true,
                Key::Backspace => true,
                _ => false,
            },
            InputMode::Normal => false,
        }
    }

    /// Handles one key press at `now` and names what the caller has to do.
    ///
    /// For `Action::Play` and `Action::PlayQueued` the caller starts the
    /// track and then reports with [`AppState::playback_started`] or
    /// [`AppState::queued_playback_started`], or with
    /// [`AppState::selection_not_played`] if the player could not start it.
    ///
    /// Only a key that edits the input line asks for the caret to stand on
    /// a character boundary. No key moves it off one.
    pub fn handle_key(&mut self, key: Key, now: u64) -> (action: Action)
        requires
            old(self)@.edits_line(key) ==> old(self)@.input.wf(),
        ensures
            final(self)@ == old(self)@.after_key(key, now),
            action@ == old(self)@.key_action(key),
            old(self)@.input.wf() ==> final(self)@.input.wf(),
            old(self)@.input.mode == InputMode::Editing && key == Key::Enter
                ==> final(self)@.input.wf(),
    {
        match self.input.mode {
            InputMode::Editing => self.handle_editing_key(key),
            InputMode::Normal => self.handle_control_key(key, now),
        }
    }

    fn handle_editing_key(&mut self, key: Key) -> (action: Action)
        requires
            old(self)@.edits_line(key) ==> old(self)@.input.wf(),
            old(self)@.input.mode == InputMode::Editing,
        ensures
            forall|now: u64| final(self)@ == old(self)@.after_editing_key(key, now),
            action@ == old(self)@.key_action(key),
            old(self)@.input.wf() || key == Key::Enter ==> final(self)@.input.wf(),
    {
        match key {
            Key::Interrupt => {
                self.should_quit = true;
                Action::Idle
            },
            Key::Enter => {
                let text = self.input.submit();
                if text.as_str().unicode_len() > 0 {
                    Action::Submit(text)
                } else {
                    Action::Idle
                }
            },
            Key::Char(c) => {
                self.input.insert(c);
                Action::Idle
            },
            Key::Backspace => {
                self.input.backspace();
                Action::Idle
            },
            Key::Esc | Key::Tab => {
                self.input.mode = InputMode::Normal;
                Action::Idle
            },
            _ => Action::Idle,
        }
    }

    fn handle_control_key(&mut self, key: Key, now: u64) -> (action: Action)
        requires
            old(self)@.input.mode == InputMode::Normal,
        ensures
            final(self)@ == old(self)@.after_control_key(key, now),
            action@ == old(self)@.key_action(key),
            old(self)@.input.wf() ==> final(self)@.input.wf(),
    {
        match key {
            Key::Interrupt => {
                self.should_quit = true;
                Action::Idle
            },
            Key::Tab => {
                self.input.mode = InputMode::Editing;
                Action::Idle
            },
            Key::Up => {
                self.move_cursor_up();
                Action::Idle
            },
            Key::Down => {
                self.move_cursor_down();
                Action::Idle
            },
            Key::Left => {
                self.switch_panel_left();
                Action::Idle
            },
            Key::Right => {
                self.switch_panel_right();
                Action::Idle
            },
            Key::Char(c) => {
                if c == 'q' {
                    self.should_quit = true;
                    Action::Idle
                } else if c == 'i' || c == '/' {
                    self.input.mode = InputMode::Editing;
                    Action::Idle
                } else if c == 'p' {
                    self.toggle_pause(now)
                } else if c == 'n' {
                    self.current = None;
                    Action::Stop
                } else if c == 'f' {
                    if self.current.is_some() {
                        Action::Seek(self.playback_position.saturating_add(SEEK_STEP_MS))
                    } else {
                        Action::Idle
                    }
                } else if c == 'b' {
                    if self.current.is_some() {
                        Action::Seek(self.playback_position.saturating_sub(SEEK_STEP_MS))
                    } else {
                        Action::Idle
                    }
                } else if c == '+' || c == '=' {
                    let level = if self.volume >= MAX_VOLUME - VOLUME_STEP {
                        MAX_VOLUME
                    } else {
                        self.volume + VOLUME_STEP
                    };
                    self.volume = level;
                    Action::SetVolume(level)
                } else if c == '-' {
                    let level = self.volume.saturating_sub(VOLUME_STEP);
                    self.volume = level;
                    Action::SetVolume(level)
                } else if c == ' ' {
                    match self.selected_track() {
                        Some(song) => match self.focused_panel {
                            FocusedPanel::Library => Action::Play(song),
                            FocusedPanel::Queue => Action::PlayQueued(song),
                        },
                        None => self.selection_not_played(now),
                    }
                } else {
                    Action::Idle
                }
            },
            _ => Action::Idle,
        }
    }

    /// Turns a click at (`row`, `column`) into a seek, where the click
    /// lands on the progress bar of an active track of known duration.
    pub fn handle_click(&self, row: u16, column: u16) -> (action: Action)
        ensures
            action@ == match self@.click_target(row, column) {
                Some(position) => ActionView::Seek(position),
                None => ActionView::Idle,
            },
    {
        let (bar_row, first, end) = match self.progress_bar_area {
            Some(area) => area,
            None => {
                return Action::Idle;
            },
        };
        let duration = match &self.current {
            Some(np) => match np.song.duration {
                Some(d) => d,
                None => 0,
            },
            None => {
                return Action::Idle;
            },
        };
        if row == bar_row && first <= column && column < end && duration > 0 {
            let offset = (column - first) as u128;
            let width = (end - first) as u128;
            proof {
                lemma_click_position_in_track(duration, offset as int, width as int);
                assert(duration as u128 * offset <= u64::MAX * 65536) by (nonlinear_arith)
                    requires
                        duration <= u64::MAX,
                        offset < 65536,
                ;
            }
            let position = (duration as u128 * offset / width) as u64;
            Action::Seek(position)
        } else {
            Action::Idle
        }
    }
}

} // verus!
