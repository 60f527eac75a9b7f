//! The numbers and texts that the presentation layer draws from.
//!
//! Nothing here draws. These are the computations behind the drawing:
//! how a duration reads, how wide the filled part of a bar is, where the
//! clickable region of the progress bar lies, which items of a list are in
//! view.

use vstd::prelude::*;
use vstd::string::*;
use crate::command::MAX_VOLUME;
use crate::state::{AppState, AppStateView};
use crate::text::joined;

verus! {

/// Number of cells of the volume bar.
pub const VOLUME_CELLS: usize = 6;

/// Number of columns in front of the progress bar: two of margin, the play
/// or pause sign in brackets, and a space.
pub const BAR_PREFIX: u16 = 7;

/// Number of lines that one item of the queue panel takes.
pub const QUEUE_ITEM_LINES: usize = 3;

/// The character that stands for the digit `d`.
pub open spec fn digit_char(d: int) -> char {
    if d == 0 {
        '0'
    } else if d == 1 {
        '1'
    } else if d == 2 {
        '2'
    } else if d == 3 {
        '3'
    } else if d == 4 {
        '4'
    } else if d == 5 {
        '5'
    } else if d == 6 {
        '6'
    } else if d == 7 {
        '7'
    } else if d == 8 {
        '8'
    } else {
        '9'
    }
}

/// The digits of `n` in base ten, without leading zeros.
pub open spec fn decimal_text(n: nat) -> Seq<char>
    decreases n,
{
    if n < 10 {
        seq![digit_char(n as int)]
    } else {
        decimal_text(n / 10).push(digit_char((n % 10) as int))
    }
}

/// The two digits of `n`, with a leading zero below ten.
pub open spec fn two_digit_text(n: nat) -> Seq<char>
    recommends
        n < 100,
{
    seq![digit_char((n / 10) as int), digit_char((n % 10) as int)]
}

/// How a duration of `ms` milliseconds reads: whole minutes, a colon, and
/// the seconds of the minute that has begun, in two digits.
pub open spec fn duration_text(ms: u64) -> Seq<char> {
    decimal_text(((ms / 1000) / 60) as nat) + seq![':'] + two_digit_text(((ms / 1000) % 60) as nat)
}

fn digit(d: u64) -> (text: &'static str)
    requires
        d < 10,
    ensures
        text@ == seq![digit_char(d as int)],
{
    proof {
        reveal_strlit("0");
        reveal_strlit("1");
        reveal_strlit("2");
        reveal_strlit("3");
        reveal_strlit("4");
        reveal_strlit("5");
        reveal_strlit("6");
        reveal_strlit("7");
        reveal_strlit("8");
        reveal_strlit("9");
    }
    let text = if d == 0 {
        "0"
    } else if d == 1 {
        "1"
    } else if d == 2 {
        "2"
    } else if d == 3 {
        "3"
    } else if d == 4 {
        "4"
    } else if d == 5 {
        "5"
    } else if d == 6 {
        "6"
    } else if d == 7 {
        "7"
    } else if d == 8 {
        "8"
    } else {
        "9"
    };
    assert(text@ =~= seq![digit_char(d as int)]);
    text
}

/// Writes `n` in base ten.
pub fn decimal(n: u64) -> (text: String)
    ensures
        text@ == decimal_text(n as nat),
    decreases n,
{
    if n < 10 {
        digit(n).to_owned()
    } else {
        let mut text = decimal(n / 10);
        text.append(digit(n % 10));
        assert(text@ =~= decimal_text((n / 10) as nat).push(digit_char((n % 10) as int)));
        text
    }
}

/// Writes a duration of `ms` milliseconds as minutes and seconds.
pub fn format_duration(ms: u64) -> (text: String)
    ensures
        text@ == duration_text(ms),
{
    let secs = ms / 1000;
    let mut text = decimal(secs / 60);
    proof {
        reveal_strlit(":");
    }
    text.append(":");
    text.append(digit((secs % 60) / 10));
    text.append(digit((secs % 60) % 10));
    assert(text@ =~= duration_text(ms));
    text
}

/// Number of filled cells of the volume bar at `volume`.
pub open spec fn volume_cells(volume: u8) -> int {
    if volume >= MAX_VOLUME {
        VOLUME_CELLS as int
    } else {
        volume * VOLUME_CELLS / (MAX_VOLUME as int)
    }
}

/// The filled and the empty cells of the volume bar at `volume`.
pub fn volume_bar(volume: u8) -> (cells: (usize, usize))
    ensures
        cells.0 == volume_cells(volume),
        cells.0 + cells.1 == VOLUME_CELLS,
{
    let filled = if volume >= MAX_VOLUME {
        VOLUME_CELLS
    } else {
        (volume as usize) * VOLUME_CELLS / (MAX_VOLUME as usize)
    };
    (filled, VOLUME_CELLS - filled)
}

/// The position that the progress bar shows: the player's position, and
/// the end of the track where the position lies beyond a known end.
pub open spec fn shown_position(position: u64, duration: u64) -> u64 {
    if duration > 0 && position > duration {
        duration
    } else {
        position
    }
}

/// The position that the progress bar shows.
pub fn shown_position_of(position: u64, duration: u64) -> (shown: u64)
    ensures
        shown == shown_position(position, duration),
{
    if duration > 0 && position > duration {
        duration
    } else {
        position
    }
}

/// Number of filled cells of a progress bar `width` cells wide, at
/// `position` in a track of `duration` milliseconds. A track shorter than
/// a second shows no progress.
pub open spec fn progress_cells(position: u64, duration: u64, width: int) -> int {
    if duration < 1000 {
        0
    } else {
        shown_position(position, duration) * width / (duration as int)
    }
}

/// The progress bar of the active track: the row and the columns of its
/// clickable region, and how much of it is filled.
#[derive(Debug, Clone, Copy, PartialEq, Eq, Structural)]
pub struct ProgressBar {
    pub row: u16,
    pub first: u16,
    pub end: u16,
    pub filled: u16,
    pub empty: u16,
}

/// Number of cells of the progress bar in a panel `width` columns wide: what
/// the prefix, the position marker and the time text of `time_len` columns
/// leave over.
pub open spec fn bar_width(width: u16, time_len: int) -> int {
    if width >= BAR_PREFIX + 1 + time_len {
        width - (BAR_PREFIX + 1 + time_len)
    } else {
        0
    }
}

/// The progress bar in a panel at column `x` and row `y`, `width` columns
/// wide, for a time text of `time_len` columns. The bar is on the second
/// row of the panel. Columns that a `u16` cannot hold are the last column.
pub open spec fn progress_bar(
    x: u16,
    y: u16,
    width: u16,
    time_len: int,
    position: u64,
    duration: u64,
) -> ProgressBar {
    let cells = bar_width(width, time_len);
    let row = if y < u16::MAX {
        (y + 1) as u16
    } else {
        u16::MAX
    };
    let first = if x + BAR_PREFIX <= u16::MAX {
        (x + BAR_PREFIX) as u16
    } else {
        u16::MAX
    };
    let end = if first + cells <= u16::MAX {
        (first + cells) as u16
    } else {
        u16::MAX
    };
    let filled = progress_cells(position, duration, cells);
    ProgressBar { row, first, end, filled: filled as u16, empty: (cells - filled) as u16 }
}

/// A progress bar is never filled beyond its width.
pub proof fn lemma_progress_cells_bound(position: u64, duration: u64, width: int)
    requires
        0 <= width,
    ensures
        0 <= progress_cells(position, duration, width) <= width,
{
    if duration >= 1000 {
        let shown = shown_position(position, duration) as int;
        let d = duration as int;
        assert(0 <= shown * width / d <= width) by (nonlinear_arith)
            requires
                0 <= shown <= d,
                0 < d,
                0 <= width,
        ;
    }
}

/// Lays out the progress bar.
pub fn layout_progress_bar(
    x: u16,
    y: u16,
    width: u16,
    time_len: usize,
    position: u64,
    duration: u64,
) -> (bar: ProgressBar)
    ensures
        bar == progress_bar(x, y, width, time_len as int, position, duration),
        bar.first <= bar.end,
        bar.filled + bar.empty == bar_width(width, time_len as int),
{
    let overhead = (BAR_PREFIX as usize + 1).saturating_add(time_len);
    let cells: u16 = if (width as usize) >= overhead {
        (width as usize - overhead) as u16
    } else {
        0
    };
    let row = y.saturating_add(1);
    let first = x.saturating_add(BAR_PREFIX);
    let end = first.saturating_add(cells);
    proof {
        lemma_progress_cells_bound(position, duration, cells as int);
    }
    let filled: u16 = if duration < 1000 {
        0
    } else {
        let shown = shown_position_of(position, duration);
        assert(shown * cells <= u64::MAX * 65536) by (nonlinear_arith)
            requires
                shown <= u64::MAX,
                cells < 65536,
        ;
        ((shown as u128) * (cells as u128) / (duration as u128)) as u16
    };
    ProgressBar { row, first, end, filled, empty: cells - filled }
}

/// Index of the first item in view, in a list that shows `visible` items
/// and keeps the item under `cursor` in view. A list that shows no item at
/// all starts at the cursor.
pub open spec fn scroll_offset(cursor: int, visible: int) -> int {
    if visible == 0 {
        cursor
    } else if cursor >= visible {
        cursor - visible + 1
    } else {
        0
    }
}

/// Index of the first item in view.
pub fn first_visible(cursor: usize, visible: usize) -> (offset: usize)
    ensures
        offset == scroll_offset(cursor as int, visible as int),
        visible > 0 ==> offset <= cursor < offset + visible,
{
    if visible == 0 {
        cursor
    } else if cursor >= visible {
        cursor - visible + 1
    } else {
        0
    }
}

/// Number of queue items that fit into `height` lines: a third of the
/// lines, and always at least one.
pub fn queue_items_in_view(height: usize) -> (items: usize)
    ensures
        items == if height / QUEUE_ITEM_LINES >= 1 {
            height / QUEUE_ITEM_LINES
        } else {
            1
        },
        items >= 1,
{
    let items = height / QUEUE_ITEM_LINES;
    if items >= 1 {
        items
    } else {
        1
    }
}

/// A title cut to fit `max` columns: a title that is longer loses its end
/// to three dots, unless there is no room for more than the dots.
pub open spec fn fitted_title(title: Seq<char>, max: int) -> Seq<char> {
    if max > 3 && title.len() > max {
        title.take(max - 3) + "..."@
    } else {
        title
    }
}

/// Cuts a title to fit `max` columns.
pub fn fit_title(title: &str, max: usize) -> (text: String)
    ensures
        text@ == fitted_title(title@, max as int),
        max > 3 ==> text@.len() <= max || text@.len() == title@.len(),
{
    let n = title.unicode_len();
    if max > 3 && n > max {
        proof {
            reveal_strlit("...");
        }
        let text = joined(title.substring_char(0, max - 3), "...");
        assert(title@.subrange(0, max - 3) =~= title@.take(max - 3));
        text
    } else {
        title.to_owned()
    }
}

impl AppState {
    /// Stores the clickable region of the progress bar as the presentation
    /// layer has laid it out, or no region while no track is active.
    pub fn place_progress_bar(&mut self, x: u16, y: u16, width: u16, time_len: usize) -> (bar: Option<
        ProgressBar,
    >)
        ensures
            match bar {
                Some(b) => old(self)@.current is Some && b == progress_bar(
                    x,
                    y,
                    width,
                    time_len as int,
                    old(self)@.playback_position,
                    match old(self)@.current->0.song.duration {
                        Some(d) => d,
                        None => 0,
                    },
                ) && final(self)@ == (AppStateView {
                    progress_bar_area: Some((b.row, b.first, b.end)),
                    ..old(self)@
                }),
                None => old(self)@.current is None && final(self)@ == old(self)@,
            },
    {
        let duration = match &self.current {
            Some(np) => match np.song.duration {
                Some(d) => d,
                None => 0,
            },
            None => {
                return None;
            },
        };
        let bar = layout_progress_bar(x, y, width, time_len, self.playback_position, duration);
        self.progress_bar_area = Some((bar.row, bar.first, bar.end));
        Some(bar)
    }
}

} // verus!
