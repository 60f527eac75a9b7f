//! The summary of the session that goes to the agent with each request.

use vstd::prelude::*;
use vstd::string::*;
use crate::display::{decimal, decimal_text};
use crate::now_playing::{NowPlaying, NowPlayingView};
use crate::song::{song_views, Song, SongStatus, SongView};
use crate::state::{playing_view, AppState, AppStateView};

verus! {

/// Name of a lifecycle stage, as the summary writes it.
pub open spec fn status_name(status: SongStatus) -> Seq<char> {
    match status {
        SongStatus::Queued => "Queued"@,
        SongStatus::Downloading => "Downloading"@,
        SongStatus::Ready => "Ready"@,
        SongStatus::Playing => "Playing"@,
        SongStatus::Played => "Played"@,
    }
}

/// The line about the active track.
pub open spec fn now_playing_line(current: Option<NowPlayingView>) -> Seq<char> {
    match current {
        Some(np) => "Now playing: "@ + np.song.title + " - "@ + np.song.artist + "\n"@,
        None => "Now playing: nothing\n"@,
    }
}

/// The line of the item at `index` of the library panel: its number,
/// counted from one, and its title.
pub open spec fn library_line(index: int, song: SongView) -> Seq<char> {
    "  "@ + decimal_text((index + 1) as nat) + ". "@ + song.title + "\n"@
}

/// The line of the item at `index` of the queue: its number, counted from
/// one, its title and its stage.
pub open spec fn queue_line(index: int, song: SongView) -> Seq<char> {
    "  "@ + decimal_text((index + 1) as nat) + ". "@ + song.title + " ("@ + status_name(song.status)
        + ")\n"@
}

/// The lines of the first `count` items of the library panel.
pub open spec fn library_lines(songs: Seq<SongView>, count: int) -> Seq<char>
    decreases count,
{
    if count <= 0 {
        Seq::empty()
    } else {
        library_lines(songs, count - 1) + library_line(count - 1, songs[count - 1])
    }
}

/// The lines of the first `count` items of the queue.
pub open spec fn queue_lines(songs: Seq<SongView>, count: int) -> Seq<char>
    decreases count,
{
    if count <= 0 {
        Seq::empty()
    } else {
        queue_lines(songs, count - 1) + queue_line(count - 1, songs[count - 1])
    }
}

/// The part of the summary about the library panel.
pub open spec fn library_block(songs: Seq<SongView>) -> Seq<char> {
    if songs.len() == 0 {
        "Library: empty\n"@
    } else {
        "Library:\n"@ + library_lines(songs, songs.len() as int)
    }
}

/// The part of the summary about the queue.
pub open spec fn queue_block(songs: Seq<SongView>) -> Seq<char> {
    if songs.len() == 0 {
        "Queue: empty\n"@
    } else {
        "Queue:\n"@ + queue_lines(songs, songs.len() as int)
    }
}

/// The last two lines of the summary: the volume, and whether playback is held.
pub open spec fn settings_block(volume: u8, paused: bool) -> Seq<char> {
    "Volume: "@ + decimal_text(volume as nat) + "\n"@ + "Paused: "@ + (if paused {
        "yes"@
    } else {
        "no"@
    }) + "\n"@
}

/// The summary of a session.
pub open spec fn context_text(state: AppStateView) -> Seq<char> {
    now_playing_line(state.current) + library_block(state.library) + queue_block(state.queue)
        + settings_block(state.volume, state.paused)
}

fn stage_name(status: SongStatus) -> (name: &'static str)
    ensures
        name@ == status_name(status),
{
    match status {
        SongStatus::Queued => "Queued",
        SongStatus::Downloading => "Downloading",
        SongStatus::Ready => "Ready",
        SongStatus::Playing => "Playing",
        SongStatus::Played => "Played",
    }
}

fn append_library_lines(text: &mut String, songs: &Vec<Song>)
    ensures
        final(text)@ == old(text)@ + library_lines(song_views(songs@), songs@.len() as int),
{
    let ghost start = text@;
    let ghost views = song_views(songs@);
    let mut i: usize = 0;
    assert(start + library_lines(views, 0) =~= start);
    while i < songs.len()
        invariant
            0 <= i <= songs.len(),
            views == song_views(songs@),
            text@ == start + library_lines(views, i as int),
        decreases songs.len() - i,
    {
        let ghost before = text@;
        text.append("  ");
        text.append(decimal(i as u64 + 1).as_str());
        text.append(". ");
        text.append(songs[i].title.as_str());
        text.append("\n");
        assert(text@ =~= before + library_line(i as int, views[i as int]));
        assert(text@ =~= start + library_lines(views, i + 1));
        i = i + 1;
    }
}

fn append_queue_lines(text: &mut String, songs: &Vec<Song>)
    ensures
        final(text)@ == old(text)@ + queue_lines(song_views(songs@), songs@.len() as int),
{
    let ghost start = text@;
    let ghost views = song_views(songs@);
    let mut i: usize = 0;
    assert(start + queue_lines(views, 0) =~= start);
    while i < songs.len()
        invariant
            0 <= i <= songs.len(),
            views == song_views(songs@),
            text@ == start + queue_lines(views, i as int),
        decreases songs.len() - i,
    {
        let ghost before = text@;
        text.append("  ");
        text.append(decimal(i as u64 + 1).as_str());
        text.append(". ");
        text.append(songs[i].title.as_str());
        text.append(" (");
        text.append(stage_name(songs[i].status));
        text.append(")\n");
        assert(text@ =~= before + queue_line(i as int, views[i as int]));
        assert(text@ =~= start + queue_lines(views, i + 1));
        i = i + 1;
    }
}

fn append_now_playing(text: &mut String, current: &Option<NowPlaying>)
    ensures
        final(text)@ == old(text)@ + now_playing_line(playing_view(*current)),
{
    let ghost start = text@;
    match current {
        Some(np) => {
            text.append("Now playing: ");
            text.append(np.song.title.as_str());
            text.append(" - ");
            text.append(np.song.artist.as_str());
            text.append("\n");
        },
        None => {
            text.append("Now playing: nothing\n");
        },
    }
    assert(text@ =~= start + now_playing_line(playing_view(*current)));
}

fn append_library_block(text: &mut String, songs: &Vec<Song>)
    ensures
        final(text)@ == old(text)@ + library_block(song_views(songs@)),
{
    let ghost start = text@;
    if songs.len() == 0 {
        text.append("Library: empty\n");
    } else {
        text.append("Library:\n");
        append_library_lines(text, songs);
    }
    assert(text@ =~= start + library_block(song_views(songs@)));
}

fn append_queue_block(text: &mut String, songs: &Vec<Song>)
    ensures
        final(text)@ == old(text)@ + queue_block(song_views(songs@)),
{
    let ghost start = text@;
    if songs.len() == 0 {
        text.append("Queue: empty\n");
    } else {
        text.append("Queue:\n");
        append_queue_lines(text, songs);
    }
    assert(text@ =~= start + queue_block(song_views(songs@)));
}

fn append_settings(text: &mut String, volume: u8, paused: bool)
    ensures
        final(text)@ == old(text)@ + settings_block(volume, paused),
{
    let ghost start = text@;
    text.append("Volume: ");
    text.append(decimal(volume as u64).as_str());
    text.append("\n");
    text.append("Paused: ");
    if paused {
        text.append("yes");
    } else {
        text.append("no");
    }
    text.append("\n");
    assert(text@ =~= start + settings_block(volume, paused));
}

impl AppState {
    /// Writes the summary of the session for the agent: what is playing,
    /// the library panel, the queue with the stage of each track, the
    /// volume, and whether playback is held.
    pub fn build_context(&self) -> (text: String)
        ensures
            text@ == context_text(self@),
    {
        let mut text = String::new();
        append_now_playing(&mut text, &self.current);
        append_library_block(&mut text, &self.library);
        append_queue_block(&mut text, &self.queue);
        append_settings(&mut text, self.volume, self.paused);
        assert(text@ =~= context_text(self@));
        text
    }
}

} // verus!
