//! The session state: what is playing, what is queued, what the library
//! panel shows, where the cursors stand and which commands are pending.

use vstd::prelude::*;
use crate::analysis::AudioFeatures;
use crate::command::{command_views, CommandView, PlayerCommand};
use crate::input::{InputState, InputView};
use crate::now_playing::{NowPlaying, NowPlayingView};
use crate::search::{first_index, lemma_first_index, lemma_first_index_is};
use crate::song::{song_views, text_of, Song, SongStatus, SongView};
use crate::visualizer::MatrixRain;

verus! {

/// What the agent is doing.
#[derive(Debug, PartialEq, Eq)]
pub enum AgentStatus {
    Idle,
    Thinking,
    Acting(String),
}

/// What an [`AgentStatus`] is, as plain mathematical values.
pub ghost enum AgentStatusView {
    Idle,
    Thinking,
    Acting(Seq<char>),
}

impl View for AgentStatus {
    type V = AgentStatusView;

    open spec fn view(&self) -> AgentStatusView {
        match self {
            AgentStatus::Idle => AgentStatusView::Idle,
            AgentStatus::Thinking => AgentStatusView::Thinking,
            AgentStatus::Acting(name) => AgentStatusView::Acting(name@),
        }
    }
}

impl Clone for AgentStatus {
    fn clone(&self) -> (r: Self)
        ensures
            r@ == self@,
    {
        match self {
            AgentStatus::Idle => AgentStatus::Idle,
            AgentStatus::Thinking => AgentStatus::Thinking,
            AgentStatus::Acting(name) => AgentStatus::Acting(name.clone()),
        }
    }
}

/// The panel that the cursor keys move in.
#[derive(Debug, Clone, Copy, PartialEq, Eq, Structural)]
pub enum FocusedPanel {
    Library,
    Queue,
}

/// The single shared aggregate of the session.
///
/// `volume` is out of 100, `playback_position` is in milliseconds, and
/// `progress_bar_area` is the clickable region of the progress bar as
/// (row, first column, column after the last).
#[derive(Debug, PartialEq, Eq)]
pub struct AppState {
    pub queue: Vec<Song>,
    pub library: Vec<Song>,
    pub current: Option<NowPlaying>,
    pub input: InputState,
    pub agent_status: AgentStatus,
    pub volume: u8,
    pub paused: bool,
    pub audio_features: AudioFeatures,
    pub matrix_rain: MatrixRain,
    pub should_quit: bool,
    pub pending_commands: Vec<PlayerCommand>,
    pub status_message: Option<String>,
    pub focused_panel: FocusedPanel,
    pub library_cursor: usize,
    pub queue_cursor: usize,
    pub playback_position: u64,
    pub progress_bar_area: Option<(u16, u16, u16)>,
}

/// What an [`AppState`] is, as plain mathematical values.
pub ghost struct AppStateView {
    pub queue: Seq<SongView>,
    pub library: Seq<SongView>,
    pub current: Option<NowPlayingView>,
    pub input: InputView,
    pub agent_status: AgentStatusView,
    pub volume: u8,
    pub paused: bool,
    pub audio_features: AudioFeatures,
    pub matrix_rain: u64,
    pub should_quit: bool,
    pub pending_commands: Seq<CommandView>,
    pub status_message: Option<Seq<char>>,
    pub focused_panel: FocusedPanel,
    pub library_cursor: int,
    pub queue_cursor: int,
    pub playback_position: u64,
    pub progress_bar_area: Option<(u16, u16, u16)>,
}

/// The view of what is playing, if anything is.
pub open spec fn playing_view(current: Option<NowPlaying>) -> Option<NowPlayingView> {
    match current {
        Some(np) => Some(np@),
        None => None,
    }
}

impl View for AppState {
    type V = AppStateView;

    open spec fn view(&self) -> AppStateView {
        AppStateView {
            queue: song_views(self.queue@),
            library: song_views(self.library@),
            current: playing_view(self.current),
            input: self.input@,
            agent_status: self.agent_status@,
            volume: self.volume,
            paused: self.paused,
            audio_features: self.audio_features,
            matrix_rain: self.matrix_rain@,
            should_quit: self.should_quit,
            pending_commands: command_views(self.pending_commands@),
            status_message: text_of(self.status_message),
            focused_panel: self.focused_panel,
            library_cursor: self.library_cursor as int,
            queue_cursor: self.queue_cursor as int,
            playback_position: self.playback_position,
            progress_bar_area: self.progress_bar_area,
        }
    }
}

/// A cursor that points into a collection of `len` items: from 0 to below
/// `len`, or 0 where the collection is empty.
pub open spec fn cursor_in_bounds(cursor: int, len: nat) -> bool {
    if len == 0 {
        cursor == 0
    } else {
        0 <= cursor < len
    }
}

/// The nearest cursor that points into a collection of `len` items.
pub open spec fn clamped_cursor(cursor: int, len: nat) -> int {
    if len == 0 {
        0
    } else if cursor >= len {
        len - 1
    } else {
        cursor
    }
}

/// The cursor one item up: the same at the top.
pub open spec fn cursor_up(cursor: int) -> int {
    if cursor > 0 {
        cursor - 1
    } else {
        cursor
    }
}

/// The cursor one item down in a collection of `len` items: the last item at
/// most, and unchanged where the collection is empty.
pub open spec fn cursor_down(cursor: int, len: nat) -> int {
    if len == 0 {
        cursor
    } else if cursor + 1 >= len {
        len - 1
    } else {
        cursor + 1
    }
}

/// The condition "has been retrieved and not yet played".
pub open spec fn is_ready() -> spec_fn(SongView) -> bool {
    |s: SongView| s.status == SongStatus::Ready
}

/// Index of the first `Ready` track of `queue`, or its length where none is.
pub open spec fn first_ready(queue: Seq<SongView>) -> int {
    first_index(queue, is_ready())
}

impl AppStateView {
    /// The state of a session that has just begun.
    pub open spec fn initial() -> AppStateView {
        AppStateView {
            queue: Seq::empty(),
            library: Seq::empty(),
            current: None,
            input: InputView {
                text: Seq::empty(),
                cursor: 0,
                mode: crate::input::InputMode::Normal,
            },
            agent_status: AgentStatusView::Idle,
            volume: 70,
            paused: false,
            audio_features: AudioFeatures::silence(),
            matrix_rain: 0,
            should_quit: false,
            pending_commands: Seq::empty(),
            status_message: None,
            focused_panel: FocusedPanel::Library,
            library_cursor: 0,
            queue_cursor: 0,
            playback_position: 0,
            progress_bar_area: None,
        }
    }

    /// Both cursors point into their collections.
    pub open spec fn cursors_in_bounds(self) -> bool {
        &&& cursor_in_bounds(self.library_cursor, self.library.len())
        &&& cursor_in_bounds(self.queue_cursor, self.queue.len())
    }

    /// The state with both cursors brought into their collections.
    pub open spec fn clamped(self) -> AppStateView {
        AppStateView {
            library_cursor: clamped_cursor(self.library_cursor, self.library.len()),
            queue_cursor: clamped_cursor(self.queue_cursor, self.queue.len()),
            ..self
        }
    }

    /// The state after the cursor of the focused panel has moved one item up.
    pub open spec fn cursor_moved_up(self) -> AppStateView {
        match self.focused_panel {
            FocusedPanel::Library => AppStateView {
                library_cursor: cursor_up(self.library_cursor),
                ..self
            },
            FocusedPanel::Queue => AppStateView { queue_cursor: cursor_up(self.queue_cursor), ..self },
        }
    }

    /// The state after the cursor of the focused panel has moved one item down.
    pub open spec fn cursor_moved_down(self) -> AppStateView {
        match self.focused_panel {
            FocusedPanel::Library => AppStateView {
                library_cursor: cursor_down(self.library_cursor, self.library.len()),
                ..self
            },
            FocusedPanel::Queue => AppStateView {
                queue_cursor: cursor_down(self.queue_cursor, self.queue.len()),
                ..self
            },
        }
    }

    /// The state after the queue entry at `index` has been taken out and the
    /// cursors brought back into bounds.
    pub open spec fn without_queued(self, index: int) -> AppStateView {
        (AppStateView { queue: self.queue.remove(index), ..self }).clamped()
    }

    /// The state after the first `Ready` track has been taken out of the
    /// queue: unchanged where the queue holds none.
    pub open spec fn ready_taken(self) -> AppStateView {
        if first_ready(self.queue) < self.queue.len() {
            self.without_queued(first_ready(self.queue))
        } else {
            self
        }
    }
}

fn clamp_cursor(cursor: usize, len: usize) -> (r: usize)
    ensures
        r == clamped_cursor(cursor as int, len as nat),
        cursor_in_bounds(r as int, len as nat),
{
    if len == 0 {
        0
    } else if cursor >= len {
        len - 1
    } else {
        cursor
    }
}

fn step_up(cursor: usize) -> (r: usize)
    ensures
        r == cursor_up(cursor as int),
{
    if cursor > 0 {
        cursor - 1
    } else {
        cursor
    }
}

fn step_down(cursor: usize, len: usize) -> (r: usize)
    ensures
        r == cursor_down(cursor as int, len as nat),
{
    if len == 0 {
        cursor
    } else if cursor >= len - 1 {
        len - 1
    } else {
        cursor + 1
    }
}

impl AppState {
    /// The state of a session that has just begun: nothing queued, nothing
    /// playing, volume 70, the library panel focused.
    pub fn new() -> (state: AppState)
        ensures
            state@ == AppStateView::initial(),
            state@.cursors_in_bounds(),
            state@.input.wf(),
    {
        let state = AppState {
            queue: Vec::new(),
            library: Vec::new(),
            current: None,
            input: InputState::default(),
            agent_status: AgentStatus::Idle,
            volume: 70,
            paused: false,
            audio_features: AudioFeatures::default(),
            matrix_rain: MatrixRain::new(80, 24),
            should_quit: false,
            pending_commands: Vec::new(),
            status_message: None,
            focused_panel: FocusedPanel::Library,
            library_cursor: 0,
            queue_cursor: 0,
            playback_position: 0,
            progress_bar_area: None,
        };
        assert(state@.queue =~= Seq::empty());
        assert(state@.library =~= Seq::empty());
        assert(state@.pending_commands =~= Seq::empty());
        state
    }

    /// The re-clamp step: brings both cursors back into their collections.
    pub fn clamp_cursors(&mut self)
        ensures
            final(self)@ == old(self)@.clamped(),
            final(self)@.cursors_in_bounds(),
    {
        self.library_cursor = clamp_cursor(self.library_cursor, self.library.len());
        self.queue_cursor = clamp_cursor(self.queue_cursor, self.queue.len());
    }

    /// Moves the cursor of the focused panel one item up.
    pub fn move_cursor_up(&mut self)
        ensures
            final(self)@ == old(self)@.cursor_moved_up(),
            old(self)@.cursors_in_bounds() ==> final(self)@.cursors_in_bounds(),
    {
        match self.focused_panel {
            FocusedPanel::Library => {
                self.library_cursor = step_up(self.library_cursor);
            },
            FocusedPanel::Queue => {
                self.queue_cursor = step_up(self.queue_cursor);
            },
        }
    }

    /// Moves the cursor of the focused panel one item down, not beyond the
    /// last item.
    pub fn move_cursor_down(&mut self)
        ensures
            final(self)@ == old(self)@.cursor_moved_down(),
            old(self)@.cursors_in_bounds() ==> final(self)@.cursors_in_bounds(),
    {
        match self.focused_panel {
            FocusedPanel::Library => {
                self.library_cursor = step_down(self.library_cursor, self.library.len());
            },
            FocusedPanel::Queue => {
                self.queue_cursor = step_down(self.queue_cursor, self.queue.len());
            },
        }
    }

    /// Gives the focus to the library panel.
    pub fn switch_panel_left(&mut self)
        ensures
            final(self)@ == (AppStateView { focused_panel: FocusedPanel::Library, ..old(self)@ }),
    {
        self.focused_panel = FocusedPanel::Library;
    }

    /// Gives the focus to the queue panel.
    pub fn switch_panel_right(&mut self)
        ensures
            final(self)@ == (AppStateView { focused_panel: FocusedPanel::Queue, ..old(self)@ }),
    {
        self.focused_panel = FocusedPanel::Queue;
    }

    /// Stores the latest snapshot of the audio features and advances the
    /// animation by one frame.
    pub fn record_features(&mut self, features: AudioFeatures)
        ensures
            final(self)@ == (AppStateView {
                audio_features: features,
                matrix_rain: crate::visualizer::next_tick(old(self)@.matrix_rain),
                ..old(self)@
            }),
    {
        self.audio_features = features;
        self.matrix_rain.update(&features);
    }

    /// Position of the first `Ready` track in the queue, if there is one.
    /// Tracks in front of it that are not `Ready` are passed over.
    pub fn first_ready_index(&self) -> (found: Option<usize>)
        ensures
            match found {
                Some(i) => i == first_ready(self@.queue) && i < self@.queue.len()
                    && self@.queue[i as int].status == SongStatus::Ready,
                None => first_ready(self@.queue) == self@.queue.len(),
            },
            forall|j: int|
                0 <= j < first_ready(self@.queue) ==> (#[trigger] self@.queue[j]).status
                    != SongStatus::Ready,
    {
        proof {
            lemma_first_index(self@.queue, is_ready());
        }
        let mut i: usize = 0;
        while i < self.queue.len()
            invariant
                0 <= i <= self.queue.len(),
                forall|j: int| 0 <= j < i ==> !is_ready()(#[trigger] self@.queue[j]),
            decreases self.queue.len() - i,
        {
            if self.queue[i].is_ready() {
                proof {
                    lemma_first_index_is(self@.queue, is_ready(), i as int);
                }
                return Some(i);
            }
            i = i + 1;
        }
        proof {
            lemma_first_index_is(self@.queue, is_ready(), i as int);
        }
        None
    }

    /// Takes the first `Ready` track out of the queue and re-clamps the
    /// cursors. Where the queue holds no `Ready` track nothing changes.
    ///
    /// The track leaves the queue at once. A caller that goes on to start
    /// the track uses [`AppState::auto_advance`] instead, which leaves the
    /// track in the queue until the player has started it.
    pub fn next_ready_song(&mut self) -> (next: Option<Song>)
        ensures
            final(self)@ == old(self)@.ready_taken(),
            match next {
                Some(song) => first_ready(old(self)@.queue) < old(self)@.queue.len() && song@ == old(
                    self,
                )@.queue[first_ready(old(self)@.queue)] && song@.status == SongStatus::Ready,
                None => first_ready(old(self)@.queue) == old(self)@.queue.len(),
            },
            final(self)@.cursors_in_bounds() || next is None,
    {
        match self.first_ready_index() {
            Some(pos) => {
                let song = self.queue.remove(pos);
                assert(song_views(self.queue@) =~= song_views(old(self).queue@).remove(pos as int));
                self.clamp_cursors();
                Some(song)
            },
            None => None,
        }
    }
}

} // verus!
