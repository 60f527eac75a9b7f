//! The commands that drive playback, and what the caller has to do for them.

use vstd::prelude::*;
use crate::song::{Song, SongView};

verus! {

/// Highest volume level.
pub const MAX_VOLUME: u8 = 100;

/// A volume level as the player takes it: levels above the highest are the highest.
pub open spec fn clamped_volume(level: u8) -> u8 {
    if level > MAX_VOLUME {
        MAX_VOLUME
    } else {
        level
    }
}

/// Brings a requested volume level into the range the player takes.
pub fn clamp_volume(level: u8) -> (r: u8)
    ensures
        r == clamped_volume(level),
        r <= MAX_VOLUME,
{
    if level > MAX_VOLUME {
        MAX_VOLUME
    } else {
        level
    }
}

/// An intent that affects the player. Anyone may append one to the pending
/// commands; only the main loop takes them out and applies them.
#[derive(Debug, PartialEq, Eq)]
pub enum PlayerCommand {
    PlayFile { path: String, title: String, artist: String, url: String, duration_ms: u64 },
    Skip,
    Pause,
    Resume,
    SetVolume(u8),
}

/// What a [`PlayerCommand`] is, as plain mathematical values.
pub ghost enum CommandView {
    PlayFile {
        path: Seq<char>,
        title: Seq<char>,
        artist: Seq<char>,
        url: Seq<char>,
        duration_ms: u64,
    },
    Skip,
    Pause,
    Resume,
    SetVolume(u8),
}

impl View for PlayerCommand {
    type V = CommandView;

    open spec fn view(&self) -> CommandView {
        match self {
            PlayerCommand::PlayFile { path, title, artist, url, duration_ms } => CommandView::PlayFile {
                path: path@,
                title: title@,
                artist: artist@,
                url: url@,
                duration_ms: *duration_ms,
            },
            PlayerCommand::Skip => CommandView::Skip,
            PlayerCommand::Pause => CommandView::Pause,
            PlayerCommand::Resume => CommandView::Resume,
            PlayerCommand::SetVolume(level) => CommandView::SetVolume(*level),
        }
    }
}

impl Clone for PlayerCommand {
    fn clone(&self) -> (r: Self)
        ensures
            r@ == self@,
    {
        match self {
            PlayerCommand::PlayFile { path, title, artist, url, duration_ms } => PlayerCommand::PlayFile {
                path: path.clone(),
                title: title.clone(),
                artist: artist.clone(),
                url: url.clone(),
                duration_ms: *duration_ms,
            },
            PlayerCommand::Skip => PlayerCommand::Skip,
            PlayerCommand::Pause => PlayerCommand::Pause,
            PlayerCommand::Resume => PlayerCommand::Resume,
            PlayerCommand::SetVolume(level) => PlayerCommand::SetVolume(*level),
        }
    }
}

/// The views of a sequence of commands, in the same order.
pub open spec fn command_views(commands: Seq<PlayerCommand>) -> Seq<CommandView> {
    Seq::new(commands.len(), |i: int| commands[i]@)
}

impl CommandView {
    /// The track that a `PlayFile` command asks to play. It is a fresh track
    /// in the `Queued` stage that carries the command's file and duration.
    pub open spec fn track(self) -> SongView
        recommends
            self is PlayFile,
    {
        SongView {
            title: self->title,
            artist: self->artist,
            url: self->url,
            file_path: Some(self->path),
            status: crate::song::SongStatus::Queued,
            duration: Some(self->duration_ms),
        }
    }
}

/// What the caller, who owns the audio output, has to do after a step of the
/// session.
///
/// For `Play` and `PlayQueued` the caller opens the track's file and starts
/// it. Handing a track out changes nothing in the session: a track of the
/// queue is still in the queue. Only when the player has started the track
/// does the caller report back, with
/// [`crate::state::AppState::playback_started`] for `Play` and with
/// [`crate::state::AppState::queued_playback_started`] for `PlayQueued`, and
/// only then does the track become the active one and leave the queue. A
/// start that fails therefore leaves the session as it was.
#[derive(Debug, PartialEq, Eq)]
pub enum Action {
    /// Nothing to do.
    Idle,
    /// Tear down what is playing and start this track, which stands in no queue.
    Play(Song),
    /// Tear down what is playing and start this track, which stands in the queue.
    PlayQueued(Song),
    /// Halt and discard what is playing.
    Stop,
    /// Hold playback.
    Pause,
    /// Continue playback.
    Resume,
    /// Set the output gain to this level, out of 100.
    SetVolume(u8),
    /// Move playback to this position, in milliseconds.
    Seek(u64),
    /// Hand this line of text to the agent.
    Submit(String),
}

/// What an [`Action`] is, as plain mathematical values.
pub ghost enum ActionView {
    Idle,
    Play(SongView),
    PlayQueued(SongView),
    Stop,
    Pause,
    Resume,
    SetVolume(u8),
    Seek(u64),
    Submit(Seq<char>),
}

impl View for Action {
    type V = ActionView;

    open spec fn view(&self) -> ActionView {
        match self {
            Action::Idle => ActionView::Idle,
            Action::Play(song) => ActionView::Play(song@),
            Action::PlayQueued(song) => ActionView::PlayQueued(song@),
            Action::Stop => ActionView::Stop,
            Action::Pause => ActionView::Pause,
            Action::Resume => ActionView::Resume,
            Action::SetVolume(level) => ActionView::SetVolume(*level),
            Action::Seek(position) => ActionView::Seek(*position),
            Action::Submit(text) => ActionView::Submit(text@),
        }
    }
}

} // verus!
