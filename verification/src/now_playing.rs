//! The active track and its playback clock.

use vstd::prelude::*;
use crate::song::{Song, SongView};

verus! {

/// The active track together with the bookkeeping of its clock.
///
/// `started_at` and `paused_at` are instants, `paused_elapsed` is the total
/// length of the pauses that have already ended; all three are milliseconds.
#[derive(Debug, PartialEq, Eq)]
pub struct NowPlaying {
    pub song: Song,
    pub started_at: u64,
    pub paused_elapsed: u64,
    pub paused_at: Option<u64>,
}

/// What a [`NowPlaying`] is, as plain mathematical values.
pub ghost struct NowPlayingView {
    pub song: SongView,
    pub started_at: u64,
    pub paused_elapsed: u64,
    pub paused_at: Option<u64>,
}

/// Subtraction that stops at zero.
pub open spec fn minus_or_zero(a: int, b: int) -> int {
    if a >= b {
        a - b
    } else {
        0
    }
}

/// Addition that stops at the largest `u64`.
pub open spec fn plus_or_max(a: int, b: int) -> int {
    if a + b <= u64::MAX {
        a + b
    } else {
        u64::MAX as int
    }
}

impl NowPlayingView {
    /// The instant up to which playing time counts when the wall clock reads
    /// `now`: the start of the pause that is open, or `now` when none is.
    pub open spec fn clock_at(self, now: u64) -> u64 {
        match self.paused_at {
            Some(p) => p,
            None => now,
        }
    }

    /// Time spent playing when the wall clock reads `now`: the time since the
    /// start, without the pauses that have ended and without the pause that is
    /// open, and never below zero.
    pub open spec fn elapsed_at(self, now: u64) -> int {
        minus_or_zero(self.clock_at(now) - self.started_at, self.paused_elapsed as int)
    }

    /// The state after a pause request at `now`: a pause opens unless one is open.
    pub open spec fn paused(self, now: u64) -> NowPlayingView {
        match self.paused_at {
            Some(_) => self,
            None => NowPlayingView { paused_at: Some(now), ..self },
        }
    }

    /// The state after a resume request at `now`: the open pause, if any, ends
    /// and its length joins the pauses that have ended.
    pub open spec fn resumed(self, now: u64) -> NowPlayingView {
        match self.paused_at {
            Some(p) => NowPlayingView {
                paused_elapsed: plus_or_max(
                    self.paused_elapsed as int,
                    minus_or_zero(now as int, p as int),
                ) as u64,
                paused_at: None,
                ..self
            },
            None => self,
        }
    }
}

impl View for NowPlaying {
    type V = NowPlayingView;

    open spec fn view(&self) -> NowPlayingView {
        NowPlayingView {
            song: self.song@,
            started_at: self.started_at,
            paused_elapsed: self.paused_elapsed,
            paused_at: self.paused_at,
        }
    }
}

impl Clone for NowPlaying {
    fn clone(&self) -> (r: Self)
        ensures
            r@ == self@,
    {
        NowPlaying {
            song: self.song.clone(),
            started_at: self.started_at,
            paused_elapsed: self.paused_elapsed,
            paused_at: self.paused_at,
        }
    }
}

impl NowPlaying {
    /// Starts the clock of `song` at `now`, with no pause.
    pub fn start(song: Song, now: u64) -> (np: NowPlaying)
        ensures
            np@ == (NowPlayingView {
                song: song@,
                started_at: now,
                paused_elapsed: 0,
                paused_at: None,
            }),
            np@.elapsed_at(now) == 0,
    {
        NowPlaying { song, started_at: now, paused_elapsed: 0, paused_at: None }
    }

    /// Time spent playing, in milliseconds, when the wall clock reads `now`.
    pub fn elapsed(&self, now: u64) -> (ms: u64)
        ensures
            ms == self@.elapsed_at(now),
    {
        let end = match self.paused_at {
            Some(p) => p,
            None => now,
        };
        end.saturating_sub(self.started_at).saturating_sub(self.paused_elapsed)
    }

    /// Whether a pause is open.
    pub fn is_paused(&self) -> (r: bool)
        ensures
            r == (self@.paused_at is Some),
    {
        self.paused_at.is_some()
    }

    /// Opens a pause at `now`. Does nothing while a pause is open.
    pub fn pause(&mut self, now: u64)
        ensures
            final(self)@ == old(self)@.paused(now),
    {
        if self.paused_at.is_none() {
            self.paused_at = Some(now);
        }
    }

    /// Ends the open pause at `now`. Does nothing while none is open.
    pub fn resume(&mut self, now: u64)
        ensures
            final(self)@ == old(self)@.resumed(now),
    {
        if let Some(p) = self.paused_at {
            self.paused_elapsed = self.paused_elapsed.saturating_add(now.saturating_sub(p));
            self.paused_at = None;
        }
    }
}

/// While a pause is open the playing time stands still.
pub proof fn lemma_elapsed_frozen_while_paused(np: NowPlayingView, t1: u64, t2: u64)
    requires
        np.paused_at is Some,
    ensures
        np.elapsed_at(t1) == np.elapsed_at(t2),
{
}

/// A pause does not count: for a running track that is paused at `t1` and
/// resumed at a later `t2`, the playing time right after the resume is the
/// playing time at the moment of the pause.
pub proof fn lemma_pause_interval_not_counted(np: NowPlayingView, t1: u64, t2: u64)
    requires
        np.paused_at is None,
        t1 <= t2,
    ensures
        np.paused(t1).resumed(t2).elapsed_at(t2) == np.elapsed_at(t1),
        np.paused(t1).elapsed_at(t2) == np.elapsed_at(t1),
{
}

/// Pausing twice is pausing once, and resuming twice is resuming once.
pub proof fn lemma_pause_resume_idempotent(np: NowPlayingView, t1: u64, t2: u64)
    ensures
        np.paused(t1).paused(t2) == np.paused(t1),
        np.resumed(t1).resumed(t2) == np.resumed(t1),
{
}

/// While no pause is open the playing time grows with the wall clock, second
/// for second once it has left zero.
pub proof fn lemma_elapsed_monotonic(np: NowPlayingView, t1: u64, t2: u64)
    requires
        t1 <= t2,
    ensures
        np.elapsed_at(t1) <= np.elapsed_at(t2),
        np.paused_at is None && np.elapsed_at(t1) > 0 ==> np.elapsed_at(t2) - np.elapsed_at(t1) == t2
            - t1,
{
}

} // verus!
