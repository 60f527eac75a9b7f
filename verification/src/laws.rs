//! What holds of the session whatever is done to it.

use vstd::prelude::*;
use crate::command::CommandView;
use crate::fetch::{from_source, CachedView};
use crate::playback::same_track;
use crate::search::lemma_first_index;
use crate::state::is_ready;
use crate::keys::Key;
use crate::library::MetaView;
use crate::song::SongView;
use crate::state::AppStateView;

verus! {

/// One thing that can happen to the session.
pub ghost enum Step {
    /// A command is appended to the pending commands.
    Enqueue(CommandView),
    /// The pending commands are taken out.
    Drain,
    /// A command is applied at a time.
    Apply(CommandView, u64),
    /// The player has started a track at a time.
    Started(SongView, u64),
    /// Auto-advance is evaluated with the player's report.
    AutoAdvance(bool),
    /// The first `Ready` track is taken out of the queue.
    TakeReady,
    /// The player has started a track of the queue at a time.
    QueuedStarted(SongView, u64),
    /// A key is pressed at a time.
    Press(Key, u64),
    /// The cursors are re-clamped.
    Clamp,
    /// A track is asked for by its source.
    RequestPlay(Seq<char>, Option<CachedView>),
    /// A track that was asked for by its source has been retrieved.
    PlayRetrieved(Seq<char>, MetaView, Seq<char>),
    /// A found track joins the queue.
    QueueTrack(Seq<char>, Seq<char>, Option<CachedView>),
    /// A retrieval reports success.
    Complete(Seq<char>, MetaView, Seq<char>),
    /// The queue is cleared.
    ClearQueue,
    /// A retrieved track is offered to the library panel.
    Remember(Seq<char>, MetaView, Seq<char>),
    /// A track of the library joins the library panel.
    ShowInLibrary(Seq<char>, CachedView),
    /// The player reports a position.
    Position(u64),
}

impl AppStateView {
    /// The state after `step`.
    pub open spec fn after(self, step: Step) -> AppStateView {
        match step {
            Step::Enqueue(command) => self.enqueued(command),
            Step::Drain => self.drained(),
            Step::Apply(command, now) => self.after_command(command, now),
            Step::Started(song, now) => self.started(song, now),
            Step::AutoAdvance(player_empty) => self.advanced(player_empty),
            Step::TakeReady => self.ready_taken(),
            Step::QueuedStarted(song, now) => self.queued_started(song, now),
            Step::Press(key, now) => self.after_key(key, now),
            Step::Clamp => self.clamped(),
            Step::RequestPlay(url, cached) => self.play_requested(url, cached),
            Step::PlayRetrieved(url, meta, path) => self.play_retrieved(url, meta, path),
            Step::QueueTrack(title, url, cached) => self.track_queued(title, url, cached),
            Step::Complete(url, meta, path) => self.download_completed(url, meta, path),
            Step::ClearQueue => self.queue_cleared(),
            Step::Remember(url, meta, path) => self.download_remembered(url, meta, path),
            Step::ShowInLibrary(url, track) => self.shown_in_library(url, track),
            Step::Position(position) => if self.current is Some {
                AppStateView { playback_position: position, ..self }
            } else {
                self
            },
        }
    }

    /// The state after `steps`, one after the other.
    pub open spec fn after_all(self, steps: Seq<Step>) -> AppStateView
        decreases steps.len(),
    {
        if steps.len() == 0 {
            self
        } else {
            self.after_all(steps.drop_last()).after(steps.last())
        }
    }
}

/// No single step moves a cursor out of its collection.
pub proof fn lemma_step_keeps_cursors(state: AppStateView, step: Step)
    requires
        state.cursors_in_bounds(),
    ensures
        state.after(step).cursors_in_bounds(),
{
    match step {
        Step::Press(key, now) => {
            lemma_key_keeps_cursors(state, key, now);
        },
        Step::TakeReady => {
            lemma_first_index(state.queue, is_ready());
        },
        Step::QueuedStarted(song, _) => {
            lemma_first_index(state.queue, same_track(song));
        },
        Step::Complete(url, _, _) => {
            lemma_first_index(state.queue, from_source(url));
        },
        _ => {},
    }
}

/// No key moves a cursor out of its collection.
pub proof fn lemma_key_keeps_cursors(state: AppStateView, key: Key, now: u64)
    requires
        state.cursors_in_bounds(),
    ensures
        state.after_key(key, now).cursors_in_bounds(),
{
    assert(state.after_editing_key(key, now).cursors_in_bounds());
    assert(state.after_control_key(key, now).cursors_in_bounds());
}

/// A step that takes a track out of the queue, or clears the queue, leaves
/// the cursors inside their collections, and so does the re-clamp step by
/// itself, wherever they stood before.
pub proof fn lemma_removal_reclamps(state: AppStateView, index: int)
    requires
        0 <= index < state.queue.len(),
        0 <= state.library_cursor,
        0 <= state.queue_cursor,
    ensures
        state.without_queued(index).cursors_in_bounds(),
        state.queue_cleared().cursors_in_bounds(),
        state.clamped().cursors_in_bounds(),
{
}

/// Whatever happens to the session, in whatever order, both cursors stay
/// inside their collections: below the length, or 0 where the collection
/// is empty.
pub proof fn lemma_cursors_stay_in_bounds(state: AppStateView, steps: Seq<Step>)
    requires
        state.cursors_in_bounds(),
    ensures
        state.after_all(steps).cursors_in_bounds(),
    decreases steps.len(),
{
    if steps.len() > 0 {
        lemma_cursors_stay_in_bounds(state, steps.drop_last());
        lemma_step_keeps_cursors(state.after_all(steps.drop_last()), steps.last());
    }
}

/// In every state that a session can reach from its beginning both cursors
/// are inside their collections.
pub proof fn lemma_session_cursors_in_bounds(steps: Seq<Step>)
    ensures
        AppStateView::initial().after_all(steps).cursors_in_bounds(),
{
    lemma_cursors_stay_in_bounds(AppStateView::initial(), steps);
}

} // verus!
