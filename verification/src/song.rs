//! Tracks and their lifecycle.

use vstd::prelude::*;
use crate::text::same_text;

verus! {

/// Stage of a track's lifecycle. The stages are ordered
/// `Queued`, `Downloading`, `Ready`, `Playing`, `Played`, and a track only
/// ever moves forward in that order.
#[derive(Debug, Clone, Copy, PartialEq, Eq, Structural)]
pub enum SongStatus {
    Queued,
    Downloading,
    Ready,
    Playing,
    Played,
}

impl SongStatus {
    /// Position of the stage in the lifecycle order.
    pub open spec fn rank(self) -> nat {
        match self {
            SongStatus::Queued => 0,
            SongStatus::Downloading => 1,
            SongStatus::Ready => 2,
            SongStatus::Playing => 3,
            SongStatus::Played => 4,
        }
    }

    /// The transition table: a stage may be followed by itself or by any later
    /// stage, never by an earlier one.
    pub open spec fn allows(self, next: SongStatus) -> bool {
        self.rank() <= next.rank()
    }

    /// The stage a track is in after a request to move it to `next`: `next`
    /// where the table allows it, the unchanged stage otherwise.
    pub open spec fn moved_to(self, next: SongStatus) -> SongStatus {
        if self.allows(next) {
            next
        } else {
            self
        }
    }

    fn position(self) -> (r: u8)
        ensures
            r as nat == self.rank(),
    {
        match self {
            SongStatus::Queued => 0,
            SongStatus::Downloading => 1,
            SongStatus::Ready => 2,
            SongStatus::Playing => 3,
            SongStatus::Played => 4,
        }
    }

    /// Whether the transition table allows a track in this stage to move to `next`.
    pub fn can_advance_to(self, next: SongStatus) -> (ok: bool)
        ensures
            ok == self.allows(next),
    {
        self.position() <= next.position()
    }

    /// Moves towards `next`, refusing any step backwards.
    pub fn advance_to(self, next: SongStatus) -> (r: SongStatus)
        ensures
            r == self.moved_to(next),
    {
        if self.can_advance_to(next) {
            next
        } else {
            self
        }
    }
}

/// A stage reached through the transition table is never earlier than the
/// stage it was reached from.
pub proof fn lemma_status_never_regresses(from: SongStatus, next: SongStatus)
    ensures
        from.rank() <= from.moved_to(next).rank(),
        from.allows(from.moved_to(next)),
{
}

/// One addressable piece of audio with its metadata.
///
/// `duration` is in milliseconds. `file_path` is the resolved local file,
/// present once the track has been retrieved.
#[derive(Debug, PartialEq, Eq)]
pub struct Song {
    pub title: String,
    pub artist: String,
    pub url: String,
    pub file_path: Option<String>,
    pub status: SongStatus,
    pub duration: Option<u64>,
}

/// What a [`Song`] is, as plain mathematical values.
pub ghost struct SongView {
    pub title: Seq<char>,
    pub artist: Seq<char>,
    pub url: Seq<char>,
    pub file_path: Option<Seq<char>>,
    pub status: SongStatus,
    pub duration: Option<u64>,
}

/// The text held by an optional string.
pub open spec fn text_of(s: Option<String>) -> Option<Seq<char>> {
    match s {
        Some(t) => Some(t@),
        None => None,
    }
}

/// Copies an optional string.
pub fn copy_text(s: &Option<String>) -> (r: Option<String>)
    ensures
        text_of(r) == text_of(*s),
{
    match s {
        Some(t) => Some(t.clone()),
        None => None,
    }
}

impl View for Song {
    type V = SongView;

    open spec fn view(&self) -> SongView {
        SongView {
            title: self.title@,
            artist: self.artist@,
            url: self.url@,
            file_path: text_of(self.file_path),
            status: self.status,
            duration: self.duration,
        }
    }
}

impl Clone for Song {
    fn clone(&self) -> (r: Self)
        ensures
            r@ == self@,
    {
        Song {
            title: self.title.clone(),
            artist: self.artist.clone(),
            url: self.url.clone(),
            file_path: copy_text(&self.file_path),
            status: self.status,
            duration: self.duration,
        }
    }
}

/// The views of a sequence of tracks, in the same order.
pub open spec fn song_views(songs: Seq<Song>) -> Seq<SongView> {
    Seq::new(songs.len(), |i: int| songs[i]@)
}

/// Whether two optional strings hold the same text, or both none.
pub fn same_optional_text(a: &Option<String>, b: &Option<String>) -> (same: bool)
    ensures
        same == (text_of(*a) == text_of(*b)),
{
    match (a, b) {
        (Some(x), Some(y)) => same_text(x.as_str(), y.as_str()),
        (None, None) => true,
        _ => false,
    }
}

impl SongView {
    /// A track that auto-advance may start: retrieved, and with a local file.
    pub open spec fn playable(self) -> bool {
        self.status == SongStatus::Ready && self.file_path is Some
    }
}

impl Song {
    /// A track that has been asked for and not yet retrieved.
    pub fn new_queued(title: &str, artist: &str, url: &str) -> (song: Song)
        ensures
            song@ == (SongView {
                title: title@,
                artist: artist@,
                url: url@,
                file_path: None,
                status: SongStatus::Queued,
                duration: None,
            }),
    {
        Song {
            title: title.to_owned(),
            artist: artist.to_owned(),
            url: url.to_owned(),
            file_path: None,
            status: SongStatus::Queued,
            duration: None,
        }
    }

    /// The placeholder shown while a track is being retrieved.
    pub fn new_downloading(url: &str) -> (song: Song)
        ensures
            song@ == (SongView {
                title: "Loading..."@,
                artist: Seq::<char>::empty(),
                url: url@,
                file_path: None,
                status: SongStatus::Downloading,
                duration: None,
            }),
    {
        Song {
            title: "Loading...".to_owned(),
            artist: String::new(),
            url: url.to_owned(),
            file_path: None,
            status: SongStatus::Downloading,
            duration: None,
        }
    }

    /// A track whose file is already on disk.
    pub fn new_ready(title: &str, artist: &str, url: &str, file_path: &str, duration: u64) -> (song:
        Song)
        ensures
            song@ == (SongView {
                title: title@,
                artist: artist@,
                url: url@,
                file_path: Some(file_path@),
                status: SongStatus::Ready,
                duration: Some(duration),
            }),
    {
        Song {
            title: title.to_owned(),
            artist: artist.to_owned(),
            url: url.to_owned(),
            file_path: Some(file_path.to_owned()),
            status: SongStatus::Ready,
            duration: Some(duration),
        }
    }

    /// Whether two tracks are alike in every field.
    pub fn same_as(&self, other: &Song) -> (same: bool)
        ensures
            same == (self@ == other@),
    {
        let same_duration = match (self.duration, other.duration) {
            (Some(x), Some(y)) => x == y,
            (None, None) => true,
            _ => false,
        };
        same_text(self.title.as_str(), other.title.as_str()) && same_text(
            self.artist.as_str(),
            other.artist.as_str(),
        ) && same_text(self.url.as_str(), other.url.as_str()) && same_optional_text(
            &self.file_path,
            &other.file_path,
        ) && self.status == other.status && same_duration
    }

    /// Whether the track has been retrieved and not yet played.
    pub fn is_ready(&self) -> (r: bool)
        ensures
            r == (self@.status == SongStatus::Ready),
    {
        self.status == SongStatus::Ready
    }

    /// Whether the track is retrieved and has a local file to open.
    pub fn is_playable(&self) -> (r: bool)
        ensures
            r == self@.playable(),
    {
        self.status == SongStatus::Ready && self.file_path.is_some()
    }
}

} // verus!
