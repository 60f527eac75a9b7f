//! Applying commands and advancing through the queue.
//!
//! The session never touches the audio output. Each step changes the state
//! and names the [`Action`] that the owner of the output has to perform.

use vstd::prelude::*;
use crate::command::{
    clamp_volume, clamped_volume, command_views, Action, ActionView, CommandView, PlayerCommand,
};
use crate::now_playing::{NowPlaying, NowPlayingView};
use crate::song::{song_views, Song, SongStatus, SongView};
use crate::state::{first_ready, is_ready, AppState, AppStateView};
use crate::search::{first_index, lemma_first_index, lemma_first_index_is};

verus! {

/// What is playing after a pause request at `now`.
pub open spec fn pause_of(current: Option<NowPlayingView>, now: u64) -> Option<NowPlayingView> {
    match current {
        Some(np) => Some(np.paused(now)),
        None => None,
    }
}

/// What is playing after a resume request at `now`.
pub open spec fn resume_of(current: Option<NowPlayingView>, now: u64) -> Option<NowPlayingView> {
    match current {
        Some(np) => Some(np.resumed(now)),
        None => None,
    }
}

/// The clock of a track that starts at `now`.
pub open spec fn fresh_clock(song: SongView, now: u64) -> NowPlayingView {
    NowPlayingView { song, started_at: now, paused_elapsed: 0, paused_at: None }
}

impl AppStateView {
    /// The state with `command` appended to the pending commands.
    pub open spec fn enqueued(self, command: CommandView) -> AppStateView {
        AppStateView { pending_commands: self.pending_commands.push(command), ..self }
    }

    /// The state with no pending commands.
    pub open spec fn drained(self) -> AppStateView {
        AppStateView { pending_commands: Seq::empty(), ..self }
    }

    /// The state with playback held at `now`.
    pub open spec fn held(self, now: u64) -> AppStateView {
        AppStateView { paused: true, current: pause_of(self.current, now), ..self }
    }

    /// The state with playback continued at `now`.
    pub open spec fn continued(self, now: u64) -> AppStateView {
        AppStateView { paused: false, current: resume_of(self.current, now), ..self }
    }

    /// The state with nothing playing.
    pub open spec fn stopped(self) -> AppStateView {
        AppStateView { current: None, ..self }
    }

    /// The state with the volume at `level`, brought into range.
    pub open spec fn with_volume(self, level: u8) -> AppStateView {
        AppStateView { volume: clamped_volume(level), ..self }
    }

    /// The state once the player has started `song` at `now`.
    pub open spec fn started(self, song: SongView, now: u64) -> AppStateView {
        AppStateView { current: Some(fresh_clock(song, now)), paused: false, ..self }
    }

    /// The state after `command` has been applied at `now`. A `PlayFile`
    /// leaves the state as it is: the track becomes the active one only
    /// once the player has started it.
    pub open spec fn after_command(self, command: CommandView, now: u64) -> AppStateView {
        match command {
            CommandView::PlayFile { .. } => self,
            CommandView::Skip => self.stopped(),
            CommandView::Pause => self.held(now),
            CommandView::Resume => self.continued(now),
            CommandView::SetVolume(level) => self.with_volume(level),
        }
    }

    /// Whether auto-advance has anything to decide: a track is active and
    /// the player reports that its stream has ended.
    pub open spec fn advance_due(self, player_empty: bool) -> bool {
        self.current is Some && player_empty
    }

    /// The state after one evaluation of auto-advance.
    ///
    /// Where it is due and the queue holds no `Ready` track, the session
    /// becomes idle. In every other case nothing changes: a `Ready` track
    /// stays in the queue, whether it is handed to the player or has no
    /// local file yet, until the player has started it.
    pub open spec fn advanced(self, player_empty: bool) -> AppStateView {
        if self.advance_due(player_empty) && first_ready(self.queue) >= self.queue.len() {
            self.stopped()
        } else {
            self
        }
    }

    /// Position of the first queue entry that is alike `song` in every
    /// field, or the length of the queue where the queue holds none.
    pub open spec fn queue_place(self, song: SongView) -> int {
        first_index(self.queue, same_track(song))
    }

    /// The state once the player has started the queue track `song` at
    /// `now`: the first entry alike it has left the queue, the cursors are
    /// re-clamped, and the track is the active one. Where the queue holds
    /// no such entry any more, the track only becomes the active one.
    pub open spec fn queued_started(self, song: SongView, now: u64) -> AppStateView {
        if self.queue_place(song) < self.queue.len() {
            self.without_queued(self.queue_place(song)).started(song, now)
        } else {
            self.started(song, now)
        }
    }

    /// The track that one evaluation of auto-advance hands to the player, if any.
    pub open spec fn advance_pick(self, player_empty: bool) -> Option<SongView> {
        let i = first_ready(self.queue);
        if self.advance_due(player_empty) && i < self.queue.len() && self.queue[i].file_path is Some {
            Some(self.queue[i])
        } else {
            None
        }
    }
}

/// The condition "is alike `song` in every field".
pub open spec fn same_track(song: SongView) -> spec_fn(SongView) -> bool {
    |s: SongView| s == song
}

/// What the owner of the audio output has to do for `command`.
pub open spec fn action_for(command: CommandView) -> ActionView {
    match command {
        CommandView::PlayFile { .. } => ActionView::Play(command.track()),
        CommandView::Skip => ActionView::Stop,
        CommandView::Pause => ActionView::Pause,
        CommandView::Resume => ActionView::Resume,
        CommandView::SetVolume(level) => ActionView::SetVolume(clamped_volume(level)),
    }
}

fn find_alike(songs: &Vec<Song>, song: &Song) -> (found: Option<usize>)
    ensures
        match found {
            Some(i) => i < songs@.len() && i == first_index(song_views(songs@), same_track(song@)),
            None => first_index(song_views(songs@), same_track(song@)) == songs@.len(),
        },
{
    let mut i: usize = 0;
    while i < songs.len()
        invariant
            0 <= i <= songs.len(),
            forall|j: int| 0 <= j < i ==> !same_track(song@)(#[trigger] song_views(songs@)[j]),
        decreases songs.len() - i,
    {
        if songs[i].same_as(song) {
            proof {
                lemma_first_index_is(song_views(songs@), same_track(song@), i as int);
            }
            return Some(i);
        }
        i = i + 1;
    }
    proof {
        lemma_first_index_is(song_views(songs@), same_track(song@), i as int);
    }
    None
}

impl AppState {
    /// Appends `command` to the pending commands.
    pub fn push_command(&mut self, command: PlayerCommand)
        ensures
            final(self)@ == old(self)@.enqueued(command@),
    {
        self.pending_commands.push(command);
        assert(command_views(self.pending_commands@) =~= command_views(
            old(self).pending_commands@,
        ).push(command@));
    }

    /// Takes all pending commands out, oldest first.
    pub fn take_commands(&mut self) -> (commands: Vec<PlayerCommand>)
        ensures
            command_views(commands@) == old(self)@.pending_commands,
            final(self)@ == old(self)@.drained(),
    {
        let mut commands = Vec::new();
        std::mem::swap(&mut commands, &mut self.pending_commands);
        assert(command_views(self.pending_commands@) =~= Seq::empty());
        commands
    }

    /// Applies one command at `now` and names what the player has to do.
    pub fn apply_command(&mut self, command: PlayerCommand, now: u64) -> (action: Action)
        ensures
            final(self)@ == old(self)@.after_command(command@, now),
            action@ == action_for(command@),
    {
        match command {
            PlayerCommand::PlayFile { path, title, artist, url, duration_ms } => {
                Action::Play(
                    Song {
                        title,
                        artist,
                        url,
                        file_path: Some(path),
                        status: SongStatus::Queued,
                        duration: Some(duration_ms),
                    },
                )
            },
            PlayerCommand::Skip => {
                self.current = None;
                Action::Stop
            },
            PlayerCommand::Pause => {
                self.hold(now);
                Action::Pause
            },
            PlayerCommand::Resume => {
                self.carry_on(now);
                Action::Resume
            },
            PlayerCommand::SetVolume(level) => {
                let level = clamp_volume(level);
                self.volume = level;
                Action::SetVolume(level)
            },
        }
    }

    /// Marks playback as held and opens a pause on the active track's clock.
    pub fn hold(&mut self, now: u64)
        ensures
            final(self)@ == old(self)@.held(now),
    {
        self.paused = true;
        let current = self.current.take();
        match current {
            Some(mut np) => {
                np.pause(now);
                self.current = Some(np);
            },
            None => {},
        }
    }

    /// Marks playback as continued and ends the pause on the active track's clock.
    pub fn carry_on(&mut self, now: u64)
        ensures
            final(self)@ == old(self)@.continued(now),
    {
        self.paused = false;
        let current = self.current.take();
        match current {
            Some(mut np) => {
                np.resume(now);
                self.current = Some(np);
            },
            None => {},
        }
    }

    /// Records that the player has started `song` at `now`: it becomes the
    /// active track, with a clock at zero, and playback is not held.
    pub fn playback_started(&mut self, song: Song, now: u64)
        ensures
            final(self)@ == old(self)@.started(song@, now),
            final(self)@.current->0.elapsed_at(now) == 0,
    {
        self.current = Some(NowPlaying::start(song, now));
        self.paused = false;
    }

    /// Records that the player has started the queue track `song` at `now`:
    /// the first queue entry alike it leaves the queue, the cursors are
    /// re-clamped, and the track becomes the active one, with a clock at
    /// zero. Where the entry has left the queue meanwhile, the track only
    /// becomes the active one.
    pub fn queued_playback_started(&mut self, song: Song, now: u64)
        ensures
            final(self)@ == old(self)@.queued_started(song@, now),
            final(self)@.current->0.elapsed_at(now) == 0,
            old(self)@.queue_place(song@) < old(self)@.queue.len() ==> final(self)@.cursors_in_bounds(),
            old(self)@.cursors_in_bounds() ==> final(self)@.cursors_in_bounds(),
    {
        match find_alike(&self.queue, &song) {
            Some(i) => {
                let _ = self.queue.remove(i);
                assert(song_views(self.queue@) =~= song_views(old(self).queue@).remove(i as int));
                self.clamp_cursors();
            },
            None => {},
        }
        self.current = Some(NowPlaying::start(song, now));
        self.paused = false;
    }

    /// One evaluation of auto-advance, to be made after the pending commands
    /// of the tick have been applied. `player_empty` is the player's report
    /// that its stream has ended.
    ///
    /// Returns `Action::PlayQueued` with the first `Ready` track of the
    /// queue, for the caller to start, and `Action::Idle` in every other
    /// case. The track stays in the queue until the caller reports with
    /// [`AppState::queued_playback_started`].
    pub fn auto_advance(&mut self, player_empty: bool) -> (action: Action)
        ensures
            final(self)@ == old(self)@.advanced(player_empty),
            action@ == match old(self)@.advance_pick(player_empty) {
                Some(song) => ActionView::PlayQueued(song),
                None => ActionView::Idle,
            },
            action@ is PlayQueued ==> final(self)@ == old(self)@,
    {
        if self.current.is_none() || !player_empty {
            return Action::Idle;
        }
        match self.first_ready_index() {
            Some(pos) => {
                if self.queue[pos].file_path.is_some() {
                    Action::PlayQueued(self.queue[pos].clone())
                } else {
                    Action::Idle
                }
            },
            None => {
                self.current = None;
                Action::Idle
            },
        }
    }

    /// Records the position that the player reports, while a track is active.
    pub fn set_position(&mut self, position: u64)
        ensures
            final(self)@ == if old(self)@.current is Some {
                AppStateView { playback_position: position, ..old(self)@ }
            } else {
                old(self)@
            },
    {
        if self.current.is_some() {
            self.playback_position = position;
        }
    }
}

/// The condition "is not `Ready`".
pub open spec fn not_ready() -> spec_fn(SongView) -> bool {
    |s: SongView| s.status != SongStatus::Ready
}

/// The first queue entry that is alike the first `Ready` track of the queue
/// is that track.
pub proof fn lemma_ready_track_found_again(state: AppStateView)
    requires
        first_ready(state.queue) < state.queue.len(),
    ensures
        0 <= first_ready(state.queue),
        state.queue_place(state.queue[first_ready(state.queue)]) == first_ready(state.queue),
{
    lemma_first_index(state.queue, is_ready());
    let p = first_ready(state.queue);
    let song = state.queue[p];
    lemma_first_index(state.queue, same_track(song));
    let q = state.queue_place(song);
    if q > p {
        assert(!same_track(song)(state.queue[p]));
    }
    if q < p {
        assert(same_track(song)(state.queue[q]));
        assert(!is_ready()(state.queue[q]));
    }
}

/// Auto-advance hands the player only a track that is `Ready` and has a
/// local file, and takes nothing out of the queue by itself. Once the
/// player has started that track, it is the only one to have left the
/// queue: the tracks that are not `Ready` all stay, in their order.
pub proof fn lemma_auto_advance_takes_only_ready(state: AppStateView, player_empty: bool, now: u64)
    ensures
        state.advanced(player_empty).queue == state.queue,
        state.advance_pick(player_empty) matches Some(song) ==> {
            &&& song.status == SongStatus::Ready
            &&& song.file_path is Some
            &&& 0 <= first_ready(state.queue) < state.queue.len()
            &&& song == state.queue[first_ready(state.queue)]
            &&& state.advanced(player_empty) == state
            &&& state.queued_started(song, now).queue == state.queue.remove(
                first_ready(state.queue),
            )
            &&& state.queued_started(song, now).queue.filter(not_ready()) == state.queue.filter(
                not_ready(),
            )
            &&& state.queued_started(song, now).current == Some(fresh_clock(song, now))
        },
{
    lemma_first_index(state.queue, is_ready());
    let i = first_ready(state.queue);
    if state.advance_pick(player_empty) is Some {
        lemma_ready_track_found_again(state);
        let q = state.queue;
        let head = q.subrange(0, i);
        let tail = q.subrange(i + 1, q.len() as int);
        assert(q =~= head + seq![q[i]] + tail);
        assert(q.remove(i) =~= head + tail);
        Seq::filter_distributes_over_add(head, seq![q[i]], not_ready());
        Seq::filter_distributes_over_add(head + seq![q[i]], tail, not_ready());
        Seq::filter_distributes_over_add(head, tail, not_ready());
        assert(seq![q[i]].filter(not_ready()) =~= Seq::<SongView>::empty()) by {
            reveal_with_fuel(Seq::filter, 2);
            assert(seq![q[i]].drop_last() =~= Seq::<SongView>::empty());
        }
        assert(head.filter(not_ready()) + Seq::<SongView>::empty() =~= head.filter(not_ready()));
    }
}

/// A start that fails leaves the session as it was: handing a track to the
/// player, by auto-advance or by a `PlayFile` command, changes nothing, so
/// a caller that reports nothing back has changed nothing.
pub proof fn lemma_failed_start_changes_nothing(
    state: AppStateView,
    player_empty: bool,
    command: CommandView,
    now: u64,
)
    ensures
        state.advance_pick(player_empty) is Some ==> state.advanced(player_empty) == state,
        command is PlayFile ==> state.after_command(command, now) == state,
{
}

/// A pause does not count towards the playing time: when a running track is
/// held by a `Pause` command at `t1` and continued by a `Resume` command at
/// a later `t2`, its playing time right after the `Resume` is its playing
/// time at the moment of the `Pause`.
pub proof fn lemma_pause_resume_keeps_elapsed(state: AppStateView, t1: u64, t2: u64)
    requires
        state.current matches Some(np) && np.paused_at is None,
        t1 <= t2,
    ensures
        state.after_command(CommandView::Pause, t1).after_command(
            CommandView::Resume,
            t2,
        ).current->0.elapsed_at(t2) == state.current->0.elapsed_at(t1),
        state.after_command(CommandView::Pause, t1).paused,
        !state.after_command(CommandView::Pause, t1).after_command(CommandView::Resume, t2).paused,
{
    crate::now_playing::lemma_pause_interval_not_counted(state.current->0, t1, t2);
}

/// A skip takes effect before auto-advance looks at the queue: once a `Skip`
/// has been applied nothing is active, so the evaluation of auto-advance
/// that follows in the same tick starts nothing and changes nothing.
pub proof fn lemma_skip_precedes_auto_advance(state: AppStateView, now: u64, player_empty: bool)
    ensures
        state.after_command(CommandView::Skip, now).current is None,
        state.after_command(CommandView::Skip, now).advanced(player_empty) == state.after_command(
            CommandView::Skip,
            now,
        ),
        state.after_command(CommandView::Skip, now).advance_pick(player_empty) is None,
{
}

/// Auto-advance does nothing at all while no track is active or the player
/// still has audio to play.
pub proof fn lemma_auto_advance_waits(state: AppStateView, player_empty: bool)
    requires
        !state.advance_due(player_empty),
    ensures
        state.advanced(player_empty) == state,
        state.advance_pick(player_empty) is None,
{
}

} // verus!
