//! The session's side of retrieving tracks.
//!
//! A request for a track is either met at once from the library, or leaves a
//! placeholder in the queue and asks the caller to retrieve the track. The
//! retrieval reports back with the source identifier of the track, never
//! with a position in the queue, since positions shift while it runs.

use vstd::prelude::*;
use crate::command::{CommandView, PlayerCommand};
use crate::library::{LibraryEntry, MetaView, SongMeta};
use crate::search::{first_index, lemma_first_index, lemma_first_index_is};
use crate::song::{song_views, Song, SongStatus, SongView};
use crate::state::{AgentStatus, AgentStatusView, AppState, AppStateView};
use crate::text::{joined, same_text};

verus! {

/// One line of a search: a title, a source identifier and, where known, a
/// duration in milliseconds.
#[derive(Debug, PartialEq, Eq)]
pub struct SearchResult {
    pub title: String,
    pub url: String,
    pub duration_ms: Option<u64>,
}

/// A track of the library whose file is on disk. `path` is the full path of
/// the file and `duration_ms` is in milliseconds.
#[derive(Debug, PartialEq, Eq)]
pub struct CachedTrack {
    pub path: String,
    pub title: String,
    pub artist: String,
    pub duration_ms: u64,
}

/// What a [`CachedTrack`] is, as plain mathematical values.
pub ghost struct CachedView {
    pub path: Seq<char>,
    pub title: Seq<char>,
    pub artist: Seq<char>,
    pub duration_ms: u64,
}

impl View for CachedTrack {
    type V = CachedView;

    open spec fn view(&self) -> CachedView {
        CachedView {
            path: self.path@,
            title: self.title@,
            artist: self.artist@,
            duration_ms: self.duration_ms,
        }
    }
}

/// The view of a cached track, if there is one.
pub open spec fn cached_view(cached: Option<CachedTrack>) -> Option<CachedView> {
    match cached {
        Some(track) => Some(track@),
        None => None,
    }
}

impl CachedTrack {
    /// The cached track that the record `entry` describes, with its file at `path`.
    pub fn from_entry(entry: &LibraryEntry, path: String) -> (track: CachedTrack)
        ensures
            track@ == (CachedView {
                path: path@,
                title: entry@.title,
                artist: entry@.artist,
                duration_ms: entry@.duration_ms,
            }),
    {
        CachedTrack {
            path,
            title: entry.title.clone(),
            artist: entry.artist.clone(),
            duration_ms: entry.duration_ms,
        }
    }
}

impl CachedView {
    /// The command that plays the cached track as the track of source `url`.
    pub open spec fn play_command(self, url: Seq<char>) -> CommandView {
        CommandView::PlayFile {
            path: self.path,
            title: self.title,
            artist: self.artist,
            url,
            duration_ms: self.duration_ms,
        }
    }

    /// The cached track as a queue entry of source `url`.
    pub open spec fn ready_song(self, url: Seq<char>) -> SongView {
        SongView {
            title: self.title,
            artist: self.artist,
            url,
            file_path: Some(self.path),
            status: SongStatus::Ready,
            duration: Some(self.duration_ms),
        }
    }
}

/// The queue entry that stands for a track while it is being retrieved.
pub open spec fn placeholder(title: Seq<char>, url: Seq<char>) -> SongView {
    SongView {
        title,
        artist: Seq::empty(),
        url,
        file_path: None,
        status: SongStatus::Downloading,
        duration: None,
    }
}

/// The track that a finished retrieval describes.
pub open spec fn retrieved(meta: MetaView, path: Seq<char>) -> CachedView {
    CachedView { path, title: meta.title, artist: meta.artist, duration_ms: meta.duration_ms }
}

/// A queue entry after its retrieval has finished: it carries the retrieved
/// title, artist, file and duration, and is `Ready` unless it had already
/// moved beyond that stage.
pub open spec fn resolved(song: SongView, meta: MetaView, path: Seq<char>) -> SongView {
    SongView {
        title: meta.title,
        artist: meta.artist,
        url: song.url,
        file_path: Some(path),
        status: song.status.moved_to(SongStatus::Ready),
        duration: Some(meta.duration_ms),
    }
}

/// The condition "has the source identifier `url`".
pub open spec fn from_source(url: Seq<char>) -> spec_fn(SongView) -> bool {
    |s: SongView| s.url == url
}

/// Text shown while a track that was asked for by its source is retrieved.
pub open spec fn downloading_notice() -> Seq<char> {
    "Downloading..."@
}

impl AppStateView {
    /// The state after a track has been asked for by its source: a cached
    /// track is played, by a command appended to the pending ones; for any
    /// other the notice of retrieval is shown.
    pub open spec fn play_requested(self, url: Seq<char>, cached: Option<CachedView>) -> AppStateView {
        match cached {
            Some(track) => self.enqueued(track.play_command(url)),
            None => AppStateView { status_message: Some(downloading_notice()), ..self },
        }
    }

    /// The state after the retrieval of a track that was asked for by its
    /// source has finished: the notice is gone and the track is played, by
    /// a command appended to the pending ones.
    pub open spec fn play_retrieved(self, url: Seq<char>, meta: MetaView, path: Seq<char>) -> AppStateView {
        (AppStateView { status_message: None, ..self }).enqueued(
            retrieved(meta, path).play_command(url),
        )
    }

    /// The state after `song` has joined the end of the queue.
    pub open spec fn queued(self, song: SongView) -> AppStateView {
        AppStateView { queue: self.queue.push(song), ..self }
    }

    /// The state after a found track has joined the queue: as a `Ready`
    /// track where it is cached, as a placeholder under the title of the
    /// search result otherwise.
    pub open spec fn track_queued(
        self,
        title: Seq<char>,
        url: Seq<char>,
        cached: Option<CachedView>,
    ) -> AppStateView {
        match cached {
            Some(track) => self.queued(track.ready_song(url)),
            None => self.queued(placeholder(title, url)),
        }
    }

    /// Position of the queue entry that a retrieval from `url` reports to:
    /// the first with that source, or the length of the queue where the
    /// queue holds none.
    pub open spec fn waiting_entry(self, url: Seq<char>) -> int {
        first_index(self.queue, from_source(url))
    }

    /// The state after the retrieval from `url` has reported success. The
    /// entry it reports to is resolved in place. Where the queue holds no
    /// entry with that source nothing changes.
    pub open spec fn download_completed(self, url: Seq<char>, meta: MetaView, path: Seq<char>) -> AppStateView {
        let i = self.waiting_entry(url);
        if i < self.queue.len() {
            AppStateView { queue: self.queue.update(i, resolved(self.queue[i], meta, path)), ..self }
        } else {
            self
        }
    }

    /// The state after the queue has been cleared and the cursors re-clamped.
    pub open spec fn queue_cleared(self) -> AppStateView {
        (AppStateView { queue: Seq::empty(), ..self }).clamped()
    }

    /// The state after a track of the library has joined the end of the
    /// library panel.
    pub open spec fn shown_in_library(self, url: Seq<char>, track: CachedView) -> AppStateView {
        AppStateView { library: self.library.push(track.ready_song(url)), ..self }
    }

    /// Whether the library panel shows a track of source `url`.
    pub open spec fn library_shows(self, url: Seq<char>) -> bool {
        first_index(self.library, from_source(url)) < self.library.len()
    }

    /// The state after a retrieved track has been offered to the library
    /// panel: it joins the end as a `Ready` track unless the panel already
    /// shows a track of the same source.
    pub open spec fn download_remembered(self, url: Seq<char>, meta: MetaView, path: Seq<char>) -> AppStateView {
        if self.library_shows(url) {
            self
        } else {
            AppStateView {
                library: self.library.push(retrieved(meta, path).ready_song(url)),
                ..self
            }
        }
    }
}

fn ready_song(track: CachedTrack, url: &str) -> (song: Song)
    ensures
        song@ == track@.ready_song(url@),
{
    Song {
        title: track.title,
        artist: track.artist,
        url: url.to_owned(),
        file_path: Some(track.path),
        status: SongStatus::Ready,
        duration: Some(track.duration_ms),
    }
}

fn play_command(track: CachedTrack, url: &str) -> (command: PlayerCommand)
    ensures
        command@ == track@.play_command(url@),
{
    PlayerCommand::PlayFile {
        path: track.path,
        title: track.title,
        artist: track.artist,
        url: url.to_owned(),
        duration_ms: track.duration_ms,
    }
}

fn find_source(songs: &Vec<Song>, url: &str) -> (found: Option<usize>)
    ensures
        match found {
            Some(i) => i < songs@.len() && i == first_index(song_views(songs@), from_source(url@)),
            None => first_index(song_views(songs@), from_source(url@)) == songs@.len(),
        },
{
    let mut i: usize = 0;
    while i < songs.len()
        invariant
            0 <= i <= songs.len(),
            forall|j: int| 0 <= j < i ==> !from_source(url@)(#[trigger] song_views(songs@)[j]),
        decreases songs.len() - i,
    {
        if same_text(songs[i].url.as_str(), url) {
            proof {
                lemma_first_index_is(song_views(songs@), from_source(url@), i as int);
            }
            return Some(i);
        }
        i = i + 1;
    }
    proof {
        lemma_first_index_is(song_views(songs@), from_source(url@), i as int);
    }
    None
}

impl AppState {
    /// Handles a request to play the track of source `url`. `cached` is the
    /// track as the library has it, where it has it and its file is on
    /// disk. Returns whether the caller has to retrieve the track.
    pub fn request_play(&mut self, url: &str, cached: Option<CachedTrack>) -> (retrieve: bool)
        ensures
            final(self)@ == old(self)@.play_requested(url@, cached_view(cached)),
            retrieve == (cached is None),
    {
        match cached {
            Some(track) => {
                self.push_command(play_command(track, url));
                false
            },
            None => {
                self.status_message = Some("Downloading...".to_owned());
                true
            },
        }
    }

    /// Records that the retrieval started by [`AppState::request_play`] has
    /// produced the file `path`.
    pub fn play_retrieved(&mut self, url: &str, meta: SongMeta, path: String)
        ensures
            final(self)@ == old(self)@.play_retrieved(url@, meta@, path@),
    {
        self.status_message = None;
        let track = CachedTrack {
            path,
            title: meta.title,
            artist: meta.artist,
            duration_ms: meta.duration_ms,
        };
        self.push_command(play_command(track, url));
    }

    /// Records that the retrieval started by [`AppState::request_play`] has
    /// failed, with the retrieval's own words for it.
    pub fn play_retrieval_failed(&mut self, error: &str)
        ensures
            final(self)@ == (AppStateView {
                status_message: Some("Download error: "@ + error@),
                ..old(self)@
            }),
    {
        self.status_message = Some(joined("Download error: ", error));
    }

    /// Puts a found track at the end of the queue. `cached` is the track as
    /// the library has it, where it has it and its file is on disk.
    /// Returns whether the caller has to retrieve the track.
    pub fn enqueue_track(&mut self, title: &str, url: &str, cached: Option<CachedTrack>) -> (retrieve:
        bool)
        ensures
            final(self)@ == old(self)@.track_queued(title@, url@, cached_view(cached)),
            retrieve == (cached is None),
            old(self)@.cursors_in_bounds() ==> final(self)@.cursors_in_bounds(),
    {
        let retrieve = cached.is_none();
        let song = match cached {
            Some(track) => ready_song(track, url),
            None => Song {
                title: title.to_owned(),
                artist: String::new(),
                url: url.to_owned(),
                file_path: None,
                status: SongStatus::Downloading,
                duration: None,
            },
        };
        self.queue.push(song);
        assert(song_views(self.queue@) =~= song_views(old(self).queue@).push(song@));
        retrieve
    }

    /// Records that the retrieval from `url` has produced the file `path`.
    /// The first queue entry of that source is resolved in place. Where the
    /// queue holds none, because the entry has left the queue meanwhile,
    /// nothing happens. Returns whether an entry was resolved.
    pub fn complete_download(&mut self, url: &str, meta: SongMeta, path: String) -> (found: bool)
        ensures
            final(self)@ == old(self)@.download_completed(url@, meta@, path@),
            found == (old(self)@.waiting_entry(url@) < old(self)@.queue.len()),
            final(self)@.queue.len() == old(self)@.queue.len(),
            old(self)@.cursors_in_bounds() ==> final(self)@.cursors_in_bounds(),
    {
        match find_source(&self.queue, url) {
            Some(i) => {
                let status = self.queue[i].status.advance_to(SongStatus::Ready);
                let song = Song {
                    title: meta.title,
                    artist: meta.artist,
                    url: self.queue[i].url.clone(),
                    file_path: Some(path),
                    status,
                    duration: Some(meta.duration_ms),
                };
                self.queue.set(i, song);
                assert(song_views(self.queue@) =~= song_views(old(self).queue@).update(
                    i as int,
                    song@,
                ));
                true
            },
            None => false,
        }
    }

    /// Empties the queue and re-clamps the cursors.
    pub fn clear_queue(&mut self)
        ensures
            final(self)@ == old(self)@.queue_cleared(),
            final(self)@.cursors_in_bounds(),
    {
        self.queue.clear();
        assert(song_views(self.queue@) =~= Seq::empty());
        self.clamp_cursors();
    }

    /// Offers a retrieved track to the library panel, which takes it unless
    /// it already shows a track of the same source. Returns whether the
    /// panel took it.
    pub fn remember_download(&mut self, url: &str, meta: &SongMeta, path: String) -> (added: bool)
        ensures
            final(self)@ == old(self)@.download_remembered(url@, meta@, path@),
            added == !old(self)@.library_shows(url@),
            old(self)@.cursors_in_bounds() ==> final(self)@.cursors_in_bounds(),
    {
        match find_source(&self.library, url) {
            Some(_) => false,
            None => {
                let song = Song {
                    title: meta.title.clone(),
                    artist: meta.artist.clone(),
                    url: url.to_owned(),
                    file_path: Some(path),
                    status: SongStatus::Ready,
                    duration: Some(meta.duration_ms),
                };
                self.library.push(song);
                assert(song_views(self.library@) =~= song_views(old(self).library@).push(song@));
                true
            },
        }
    }

    /// Puts a track of the library at the end of the library panel.
    pub fn show_in_library(&mut self, url: &str, track: CachedTrack)
        ensures
            final(self)@ == old(self)@.shown_in_library(url@, track@),
            old(self)@.cursors_in_bounds() ==> final(self)@.cursors_in_bounds(),
    {
        let song = ready_song(track, url);
        self.library.push(song);
        assert(song_views(self.library@) =~= song_views(old(self).library@).push(song@));
    }

    /// Records what the agent is doing.
    pub fn set_agent_status(&mut self, status: AgentStatus)
        ensures
            final(self)@ == (AppStateView { agent_status: status@, ..old(self)@ }),
    {
        self.agent_status = status;
    }

    /// Records that the agent has given up on a request, with its own words
    /// for the reason.
    pub fn agent_failed(&mut self, error: &str)
        ensures
            final(self)@ == (AppStateView {
                agent_status: AgentStatusView::Idle,
                status_message: Some("Agent error: "@ + error@),
                ..old(self)@
            }),
    {
        self.agent_status = AgentStatus::Idle;
        self.status_message = Some(joined("Agent error: ", error));
    }
}

/// A retrieval that reports after its entry has left the queue is a no-op:
/// where no queue entry has the source, the report changes nothing, and in
/// particular adds no entry.
pub proof fn lemma_late_download_is_noop(state: AppStateView, url: Seq<char>, meta: MetaView, path: Seq<char>)
    requires
        forall|j: int| 0 <= j < state.queue.len() ==> (#[trigger] state.queue[j]).url != url,
    ensures
        state.download_completed(url, meta, path) == state,
        state.queue_cleared().download_completed(url, meta, path) == state.queue_cleared(),
{
    lemma_first_index_is(state.queue, from_source(url), state.queue.len() as int);
}

/// The report of a retrieval never adds or removes a queue entry, touches
/// no entry but the one it reports to, keeps that entry's source, and never
/// moves an entry back to an earlier stage.
pub proof fn lemma_download_resolves_in_place(state: AppStateView, url: Seq<char>, meta: MetaView, path: Seq<char>)
    ensures
        state.download_completed(url, meta, path).queue.len() == state.queue.len(),
        forall|j: int|
            0 <= j < state.queue.len() && j != state.waiting_entry(url) ==> (
            #[trigger] state.download_completed(url, meta, path).queue[j]) == state.queue[j],
        forall|j: int|
            0 <= j < state.queue.len() ==> {
                &&& (#[trigger] state.download_completed(url, meta, path).queue[j]).url
                    == state.queue[j].url
                &&& state.queue[j].status.rank() <= state.download_completed(
                    url,
                    meta,
                    path,
                ).queue[j].status.rank()
            },
{
    lemma_first_index(state.queue, from_source(url));
}

} // verus!
