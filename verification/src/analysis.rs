//! The decisions of the spectral analyzer.
//!
//! The analyzer looks at the most recent window of the shared sample buffer.
//! The arithmetic on the samples themselves, from the window to the raw
//! loudness and band energies, is handed in by the caller. What is decided
//! here is which samples form the window, which bins of the spectrum make up
//! which band, how raw levels become the levels of a snapshot, and when a
//! beat fires.

use vstd::prelude::*;
use std::collections::VecDeque;
use crate::relay::{newest, SampleBuffer};

verus! {

/// Full scale of a signal level: levels are fixed-point numbers in millionths.
pub const LEVEL_ONE: u32 = 1_000_000;

/// Number of samples in the window that is analyzed.
pub const FFT_SIZE: usize = 2048;

/// Number of bins of the spectrum below the Nyquist frequency.
pub const NYQUIST_BINS: usize = 1024;

/// Lower edge of the bass band, in Hz.
pub const BASS_FROM_HZ: u64 = 20;

/// Edge between the bass band and the mid band, in Hz.
pub const BASS_TO_HZ: u64 = 250;

/// Edge between the mid band and the treble band, in Hz.
pub const MID_TO_HZ: u64 = 4000;

/// Upper edge of the treble band, in Hz.
pub const TREBLE_TO_HZ: u64 = 16000;

/// Gain applied to the raw loudness.
pub const RMS_GAIN: u64 = 4;

/// Gain applied to the raw energy of the bass band.
pub const BASS_GAIN: u64 = 15;

/// Gain applied to the raw energy of the mid band.
pub const MID_GAIN: u64 = 8;

/// Gain applied to the raw energy of the treble band.
pub const TREBLE_GAIN: u64 = 20;

/// Number of bass levels that the rolling average runs over.
pub const HISTORY_LEN: usize = 20;

/// Bass level that a beat has to exceed, whatever the average is: 0.15.
pub const BEAT_FLOOR: u32 = 150_000;

/// Time that has to pass after a beat before a further beat can fire, in
/// milliseconds.
pub const BEAT_COOLDOWN_MS: u64 = 200;

/// A snapshot of the audio features: loudness, the energies of the three
/// bands, each between 0 and [`LEVEL_ONE`], and whether a beat fired.
#[derive(Debug, Clone, Copy, PartialEq, Eq, Structural)]
pub struct AudioFeatures {
    pub rms: u32,
    pub bass: u32,
    pub mid: u32,
    pub treble: u32,
    pub is_beat: bool,
}

impl AudioFeatures {
    /// The snapshot of silence: every level zero and no beat.
    pub open spec fn silence() -> AudioFeatures {
        AudioFeatures { rms: 0, bass: 0, mid: 0, treble: 0, is_beat: false }
    }

    /// Every level is at most full scale.
    pub open spec fn normalized(self) -> bool {
        &&& self.rms <= LEVEL_ONE
        &&& self.bass <= LEVEL_ONE
        &&& self.mid <= LEVEL_ONE
        &&& self.treble <= LEVEL_ONE
    }
}

impl Default for AudioFeatures {
    fn default() -> (r: Self)
        ensures
            r == AudioFeatures::silence(),
    {
        AudioFeatures { rms: 0, bass: 0, mid: 0, treble: 0, is_beat: false }
    }
}

/// The bins of the spectrum that bound the three bands. The bass band is
/// the bins from `bass_start` up to, not including, `bass_end`; the mid band
/// goes on from there to `mid_end`, and the treble band from there to
/// `treble_end`.
#[derive(Debug, Clone, Copy, PartialEq, Eq, Structural)]
pub struct BandEdges {
    pub bass_start: usize,
    pub bass_end: usize,
    pub mid_end: usize,
    pub treble_end: usize,
}

/// The bin that the frequency `hz` falls into at `sample_rate`, where a bin
/// is `sample_rate / FFT_SIZE` wide; no bin lies above the Nyquist bins. At
/// a sample rate of zero no frequency falls into any bin.
pub open spec fn bin_of(hz: u64, sample_rate: u32) -> int {
    if sample_rate == 0 || hz * FFT_SIZE / (sample_rate as int) >= NYQUIST_BINS {
        NYQUIST_BINS as int
    } else {
        hz * FFT_SIZE / (sample_rate as int)
    }
}

/// The band layout at `sample_rate`.
pub open spec fn band_edges(sample_rate: u32) -> BandEdges {
    BandEdges {
        bass_start: bin_of(BASS_FROM_HZ, sample_rate) as usize,
        bass_end: bin_of(BASS_TO_HZ, sample_rate) as usize,
        mid_end: bin_of(MID_TO_HZ, sample_rate) as usize,
        treble_end: bin_of(TREBLE_TO_HZ, sample_rate) as usize,
    }
}

/// Higher frequencies fall into higher bins, and every bin is a Nyquist bin
/// or the end of them.
pub proof fn lemma_bin_of_monotonic(low: u64, high: u64, sample_rate: u32)
    requires
        low <= high,
    ensures
        0 <= bin_of(low, sample_rate) <= bin_of(high, sample_rate) <= NYQUIST_BINS,
{
    if sample_rate != 0 {
        let rate = sample_rate as int;
        assert(0 <= low * FFT_SIZE / rate <= high * FFT_SIZE / rate) by (nonlinear_arith)
            requires
                0 <= low <= high,
                rate > 0,
        ;
    }
}

/// The three bands lie in order inside the Nyquist bins and share no bin.
pub proof fn lemma_bands_disjoint(sample_rate: u32)
    ensures
        band_edges(sample_rate).bass_start <= band_edges(sample_rate).bass_end,
        band_edges(sample_rate).bass_end <= band_edges(sample_rate).mid_end,
        band_edges(sample_rate).mid_end <= band_edges(sample_rate).treble_end,
        band_edges(sample_rate).treble_end <= NYQUIST_BINS,
{
    lemma_bin_of_monotonic(BASS_FROM_HZ, BASS_TO_HZ, sample_rate);
    lemma_bin_of_monotonic(BASS_TO_HZ, MID_TO_HZ, sample_rate);
    lemma_bin_of_monotonic(MID_TO_HZ, TREBLE_TO_HZ, sample_rate);
}

fn bin(hz: u64, sample_rate: u32) -> (r: usize)
    requires
        hz <= TREBLE_TO_HZ,
    ensures
        r == bin_of(hz, sample_rate),
        r <= NYQUIST_BINS,
{
    if sample_rate == 0 {
        NYQUIST_BINS
    } else {
        assert(hz * FFT_SIZE <= TREBLE_TO_HZ * FFT_SIZE) by (nonlinear_arith)
            requires
                hz <= TREBLE_TO_HZ,
        ;
        let q = hz * (FFT_SIZE as u64) / (sample_rate as u64);
        if q >= NYQUIST_BINS as u64 {
            NYQUIST_BINS
        } else {
            q as usize
        }
    }
}

impl BandEdges {
    /// The band layout at `sample_rate`.
    pub fn for_rate(sample_rate: u32) -> (edges: BandEdges)
        ensures
            edges == band_edges(sample_rate),
            edges.bass_start <= edges.bass_end <= edges.mid_end <= edges.treble_end
                <= NYQUIST_BINS,
    {
        proof {
            lemma_bands_disjoint(sample_rate);
        }
        BandEdges {
            bass_start: bin(BASS_FROM_HZ, sample_rate),
            bass_end: bin(BASS_TO_HZ, sample_rate),
            mid_end: bin(MID_TO_HZ, sample_rate),
            treble_end: bin(TREBLE_TO_HZ, sample_rate),
        }
    }
}

/// Loudness and band energies as measured, before any gain: fixed-point
/// numbers in millionths, without an upper bound.
#[derive(Debug, Clone, Copy, PartialEq, Eq, Structural)]
pub struct RawLevels {
    pub rms: u64,
    pub bass: u64,
    pub mid: u64,
    pub treble: u64,
}

/// The level of a snapshot for a raw level: the raw level times the gain,
/// and full scale where that is more.
pub open spec fn scaled(raw: u64, gain: u64) -> u32 {
    if raw * gain >= LEVEL_ONE {
        LEVEL_ONE
    } else {
        (raw * gain) as u32
    }
}

/// Applies a gain to a raw level and clamps the result to full scale.
pub fn scale(raw: u64, gain: u64) -> (level: u32)
    ensures
        level == scaled(raw, gain),
        level <= LEVEL_ONE,
{
    assert(raw * gain <= u64::MAX * u64::MAX) by (nonlinear_arith)
        requires
            raw <= u64::MAX,
            gain <= u64::MAX,
    ;
    let product = (raw as u128) * (gain as u128);
    if product >= LEVEL_ONE as u128 {
        LEVEL_ONE
    } else {
        product as u32
    }
}

/// Sum of the levels in `levels`.
pub open spec fn total(levels: Seq<u32>) -> int
    decreases levels.len(),
{
    if levels.len() == 0 {
        0
    } else {
        total(levels.drop_last()) + levels.last()
    }
}

/// Whether the bass level `bass` stands out: it is more than one and a half
/// times the average of `recent`, the levels of the rolling window with
/// `bass` among them, and more than the floor.
pub open spec fn spikes(recent: Seq<u32>, bass: u32) -> bool {
    2 * recent.len() * bass > 3 * total(recent) && bass > BEAT_FLOOR
}

/// Whether the cooldown after the last beat is over at `now`: no beat has
/// fired yet, or at least [`BEAT_COOLDOWN_MS`] have passed since the last.
pub open spec fn cooled(last_beat: Option<u64>, now: u64) -> bool {
    match last_beat {
        Some(at) => now - at >= BEAT_COOLDOWN_MS,
        None => true,
    }
}

/// What the analyzer carries from one snapshot to the next, as plain
/// mathematical values: the sample rate, the bass levels of the rolling
/// window with the oldest first, and the time of the last beat.
pub ghost struct AnalyzerView {
    pub sample_rate: u32,
    pub history: Seq<u32>,
    pub last_beat: Option<u64>,
}

impl AnalyzerView {
    /// The rolling window holds no more levels than it runs over.
    pub open spec fn wf(self) -> bool {
        self.history.len() <= HISTORY_LEN
    }

    /// The snapshot for the raw levels `raw`, measured at `now`.
    pub open spec fn snapshot(self, raw: RawLevels, now: u64) -> AudioFeatures {
        let bass = scaled(raw.bass, BASS_GAIN);
        AudioFeatures {
            rms: scaled(raw.rms, RMS_GAIN),
            bass,
            mid: scaled(raw.mid, MID_GAIN),
            treble: scaled(raw.treble, TREBLE_GAIN),
            is_beat: spikes(newest(self.history.push(bass), HISTORY_LEN as int), bass) && cooled(
                self.last_beat,
                now,
            ),
        }
    }

    /// The analyzer after the snapshot for `raw` at `now`: the bass level
    /// has joined the rolling window, and a beat has restarted the cooldown.
    pub open spec fn advanced(self, raw: RawLevels, now: u64) -> AnalyzerView {
        AnalyzerView {
            sample_rate: self.sample_rate,
            history: newest(self.history.push(scaled(raw.bass, BASS_GAIN)), HISTORY_LEN as int),
            last_beat: if self.snapshot(raw, now).is_beat {
                Some(now)
            } else {
                self.last_beat
            },
        }
    }
}

/// A sum of levels is at most the largest `u32` for each of them.
pub proof fn lemma_total_at_most(levels: Seq<u32>)
    ensures
        0 <= total(levels) <= levels.len() * u32::MAX,
    decreases levels.len(),
{
    if levels.len() > 0 {
        let front = levels.drop_last();
        lemma_total_at_most(front);
        assert(front.len() * u32::MAX + u32::MAX == levels.len() * u32::MAX) by (nonlinear_arith)
            requires
                front.len() + 1 == levels.len(),
        ;
    }
}

/// The analyzer's state between snapshots.
pub struct AudioAnalyzer {
    sample_rate: u32,
    bass_history: VecDeque<u32>,
    last_beat: Option<u64>,
}

impl View for AudioAnalyzer {
    type V = AnalyzerView;

    closed spec fn view(&self) -> AnalyzerView {
        AnalyzerView {
            sample_rate: self.sample_rate,
            history: self.bass_history@,
            last_beat: self.last_beat,
        }
    }
}

impl AudioAnalyzer {
    /// An analyzer for audio at `sample_rate` that has seen no level and no
    /// beat yet.
    pub fn new(sample_rate: u32) -> (analyzer: AudioAnalyzer)
        ensures
            analyzer@ == (AnalyzerView { sample_rate, history: Seq::empty(), last_beat: None }),
            analyzer@.wf(),
    {
        AudioAnalyzer { sample_rate, bass_history: VecDeque::with_capacity(20), last_beat: None }
    }

    /// The sample rate of the audio, in Hz.
    pub fn sample_rate(&self) -> (rate: u32)
        ensures
            rate == self@.sample_rate,
    {
        self.sample_rate
    }

    /// The band layout that the measurement has to use.
    pub fn band_edges(&self) -> (edges: BandEdges)
        ensures
            edges == band_edges(self@.sample_rate),
    {
        BandEdges::for_rate(self.sample_rate)
    }

    fn history_total(&self) -> (sum: u128)
        ensures
            sum == total(self@.history),
    {
        let n = self.bass_history.len();
        let mut sum: u128 = 0;
        let mut i: usize = 0;
        assert(self@.history.take(0) =~= Seq::empty());
        while i < n
            invariant
                n == self@.history.len(),
                0 <= i <= n,
                sum == total(self@.history.take(i as int)),
                sum <= i * u32::MAX,
            decreases n - i,
        {
            proof {
                assert(self@.history.take(i + 1).drop_last() =~= self@.history.take(i as int));
                assert(i * u32::MAX + u32::MAX == (i + 1) * u32::MAX) by (nonlinear_arith);
                assert(i * u32::MAX <= usize::MAX * u32::MAX) by (nonlinear_arith)
                    requires
                        i <= usize::MAX,
                ;
            }
            sum = sum + self.bass_history[i] as u128;
            i = i + 1;
        }
        assert(self@.history.take(n as int) =~= self@.history);
        sum
    }

    /// Turns the raw levels `raw`, measured at `now`, into a snapshot, and
    /// takes note of the bass level and of a beat.
    ///
    /// Each level is the raw level times its gain, clamped to full scale.
    /// A beat fires when the bass level stands out from the rolling window
    /// and the cooldown after the last beat is over.
    pub fn conclude(&mut self, raw: RawLevels, now: u64) -> (features: AudioFeatures)
        ensures
            features == old(self)@.snapshot(raw, now),
            final(self)@ == old(self)@.advanced(raw, now),
            features.normalized(),
            final(self)@.wf(),
    {
        let rms = scale(raw.rms, RMS_GAIN);
        let bass = scale(raw.bass, BASS_GAIN);
        let mid = scale(raw.mid, MID_GAIN);
        let treble = scale(raw.treble, TREBLE_GAIN);
        let ghost before = self@.history;
        self.bass_history.push_back(bass);
        while self.bass_history.len() > HISTORY_LEN
            invariant
                self.sample_rate == old(self).sample_rate,
                self.last_beat == old(self).last_beat,
                self@.history.len() <= before.len() + 1,
                self@.history.len() >= HISTORY_LEN || self@.history.len() == before.len() + 1,
                self@.history == before.push(bass).subrange(
                    before.len() + 1 - self@.history.len(),
                    before.len() as int + 1,
                ),
            decreases self@.history.len(),
        {
            let _ = self.bass_history.pop_front();
        }
        assert(before.push(bass).subrange(0, before.len() as int + 1) =~= before.push(bass));
        assert(self@.history =~= newest(before.push(bass), HISTORY_LEN as int));
        let count = self.bass_history.len() as u128;
        let sum = self.history_total();
        let ready = match self.last_beat {
            Some(at) => now >= at && now - at >= BEAT_COOLDOWN_MS,
            None => true,
        };
        assert(2 * count * bass <= 2 * HISTORY_LEN * LEVEL_ONE) by (nonlinear_arith)
            requires
                count <= HISTORY_LEN,
                bass <= LEVEL_ONE,
        ;
        assert(3 * sum <= 3 * (HISTORY_LEN * u32::MAX)) by {
            assert(count * u32::MAX <= HISTORY_LEN * u32::MAX) by (nonlinear_arith)
                requires
                    count <= HISTORY_LEN,
            ;
            lemma_total_at_most(self@.history);
        }
        let is_beat = 2 * count * (bass as u128) > 3 * sum && bass > BEAT_FLOOR && ready;
        if is_beat {
            self.last_beat = Some(now);
        }
        AudioFeatures { rms, bass, mid, treble, is_beat }
    }

    /// One analysis of a window that the caller has taken out of the
    /// buffer, made at `now`.
    ///
    /// Without a window the snapshot is silence and the analyzer takes no
    /// note of anything. Otherwise `measure` is handed the window and the
    /// band layout, and the raw levels that it returns are turned into the
    /// snapshot as [`AudioAnalyzer::conclude`] does.
    pub fn analyze_window<T, F: FnOnce(Vec<T>, BandEdges) -> RawLevels>(
        &mut self,
        window: Option<Vec<T>>,
        now: u64,
        measure: F,
    ) -> (features: AudioFeatures)
        requires
            window matches Some(w) ==> call_requires(
                measure,
                (w, band_edges(old(self)@.sample_rate)),
            ),
        ensures
            window is None ==> features == AudioFeatures::silence() && final(self)@ == old(self)@,
            window matches Some(w) ==> exists|raw: RawLevels|
                #![trigger call_ensures(measure, (w, band_edges(old(self)@.sample_rate)), raw)]
                {
                    &&& call_ensures(measure, (w, band_edges(old(self)@.sample_rate)), raw)
                    &&& features == old(self)@.snapshot(raw, now)
                    &&& final(self)@ == old(self)@.advanced(raw, now)
                },
            features.normalized(),
            old(self)@.wf() ==> final(self)@.wf(),
    {
        match window {
            None => AudioFeatures::default(),
            Some(samples) => {
                let edges = self.band_edges();
                let raw = measure(samples, edges);
                self.conclude(raw, now)
            },
        }
    }

    /// One analysis of `buffer`, made at `now`.
    ///
    /// With fewer than [`FFT_SIZE`] samples in `buffer` the snapshot is
    /// silence and the analyzer takes no note of anything. Otherwise
    /// `measure` is handed the most recent [`FFT_SIZE`] samples, oldest
    /// first, and the band layout, and the raw levels that it returns are
    /// turned into the snapshot as [`AudioAnalyzer::conclude`] does.
    pub fn analyze<T: Copy, F: FnOnce(Vec<T>, BandEdges) -> RawLevels>(
        &mut self,
        buffer: &SampleBuffer<T>,
        now: u64,
        measure: F,
    ) -> (features: AudioFeatures)
        requires
            forall|window: Vec<T>|
                window@.len() == FFT_SIZE ==> call_requires(
                    measure,
                    (window, band_edges(old(self)@.sample_rate)),
                ),
        ensures
            buffer@.len() < FFT_SIZE ==> features == AudioFeatures::silence() && final(self)@
                == old(self)@,
            buffer@.len() >= FFT_SIZE ==> exists|window: Vec<T>, raw: RawLevels|
                #![trigger call_ensures(measure, (window, band_edges(old(self)@.sample_rate)), raw)]
                {
                    &&& window@ == newest(buffer@, FFT_SIZE as int)
                    &&& call_ensures(measure, (window, band_edges(old(self)@.sample_rate)), raw)
                    &&& features == old(self)@.snapshot(raw, now)
                    &&& final(self)@ == old(self)@.advanced(raw, now)
                },
            features.normalized(),
            old(self)@.wf() ==> final(self)@.wf(),
    {
        let window = buffer.latest(FFT_SIZE);
        self.analyze_window(window, now, measure)
    }
}

/// The outcome of a run of analyses: the beat flags of the snapshots for
/// `raws`, taken at `times`, one after the other.
pub open spec fn beats(state: AnalyzerView, raws: Seq<RawLevels>, times: Seq<u64>) -> Seq<bool>
    recommends
        raws.len() == times.len(),
    decreases raws.len(),
{
    if raws.len() == 0 || times.len() == 0 {
        Seq::empty()
    } else {
        seq![state.snapshot(raws[0], times[0]).is_beat] + beats(
            state.advanced(raws[0], times[0]),
            raws.drop_first(),
            times.drop_first(),
        )
    }
}

/// A snapshot never holds a level above full scale, and the analyzer stays
/// well-formed.
pub proof fn lemma_snapshot_normalized(state: AnalyzerView, raw: RawLevels, now: u64)
    ensures
        state.snapshot(raw, now).normalized(),
        state.advanced(raw, now).wf(),
{
}

/// Right after a beat no beat fires until the cooldown is over: a snapshot
/// taken less than [`BEAT_COOLDOWN_MS`] after the beat carries no beat,
/// whatever the signal.
pub proof fn lemma_no_beat_in_cooldown(
    state: AnalyzerView,
    raw: RawLevels,
    now: u64,
    next_raw: RawLevels,
    later: u64,
)
    requires
        state.snapshot(raw, now).is_beat,
        later < now + BEAT_COOLDOWN_MS,
    ensures
        !state.advanced(raw, now).snapshot(next_raw, later).is_beat,
{
}

/// Whether the time of the last beat, if there was one, is at least `since`.
pub open spec fn last_beat_since(state: AnalyzerView, since: u64) -> bool {
    state.last_beat matches Some(at) && at >= since
}

proof fn lemma_quiet_after_beat(state: AnalyzerView, since: u64, raws: Seq<RawLevels>, times: Seq<u64>, j: int)
    requires
        raws.len() == times.len(),
        last_beat_since(state, since),
        forall|a: int, b: int| 0 <= a <= b < times.len() ==> times[a] <= times[b],
        times.len() > 0 ==> since <= times[0],
        0 <= j < raws.len(),
        beats(state, raws, times)[j],
    ensures
        times[j] - since >= BEAT_COOLDOWN_MS,
    decreases raws.len(),
{
    if j > 0 {
        let next = state.advanced(raws[0], times[0]);
        let rest_raws = raws.drop_first();
        let rest_times = times.drop_first();
        assert forall|a: int, b: int| 0 <= a <= b < rest_times.len() implies rest_times[a]
            <= rest_times[b] by {
            assert(rest_times[a] == times[a + 1]);
            assert(rest_times[b] == times[b + 1]);
        }
        assert(rest_times[0] == times[1]);
        assert(rest_times[j - 1] == times[j]);
        lemma_beats_len(next, rest_raws, rest_times);
        assert(beats(state, raws, times)[j] == beats(next, rest_raws, rest_times)[j - 1]);
        lemma_quiet_after_beat(next, since, rest_raws, rest_times, j - 1);
    }
}

/// The length of the outcome of a run is the number of its analyses.
pub proof fn lemma_beats_len(state: AnalyzerView, raws: Seq<RawLevels>, times: Seq<u64>)
    requires
        raws.len() == times.len(),
    ensures
        beats(state, raws, times).len() == raws.len(),
    decreases raws.len(),
{
    if raws.len() > 0 {
        lemma_beats_len(state.advanced(raws[0], times[0]), raws.drop_first(), times.drop_first());
    }
}

/// No two beats fire within the cooldown of each other, whatever the
/// signal: in a run of analyses taken at times that do not go backwards,
/// any two snapshots that carry a beat are at least
/// [`BEAT_COOLDOWN_MS`] apart.
pub proof fn lemma_beats_keep_cooldown(
    state: AnalyzerView,
    raws: Seq<RawLevels>,
    times: Seq<u64>,
    i: int,
    j: int,
)
    requires
        raws.len() == times.len(),
        forall|a: int, b: int| 0 <= a <= b < times.len() ==> times[a] <= times[b],
        0 <= i < j < raws.len(),
        beats(state, raws, times)[i],
        beats(state, raws, times)[j],
    ensures
        times[j] - times[i] >= BEAT_COOLDOWN_MS,
    decreases raws.len(),
{
    let next = state.advanced(raws[0], times[0]);
    let rest_raws = raws.drop_first();
    let rest_times = times.drop_first();
    lemma_beats_len(next, rest_raws, rest_times);
    assert forall|a: int, b: int| 0 <= a <= b < rest_times.len() implies rest_times[a]
        <= rest_times[b] by {
        assert(rest_times[a] == times[a + 1]);
        assert(rest_times[b] == times[b + 1]);
    }
    assert(rest_times[j - 1] == times[j]);
    assert(beats(state, raws, times)[j] == beats(next, rest_raws, rest_times)[j - 1]);
    if i == 0 {
        assert(rest_times[0] == times[1]);
        lemma_quiet_after_beat(next, times[0], rest_raws, rest_times, j - 1);
    } else {
        assert(rest_times[i - 1] == times[i]);
        assert(beats(state, raws, times)[i] == beats(next, rest_raws, rest_times)[i - 1]);
        lemma_beats_keep_cooldown(next, rest_raws, rest_times, i - 1, j - 1);
    }
}

} // verus!
