//! The sample relay and the buffer it feeds.
//!
//! The relay sits in the path of the decoded audio. Every sample that the
//! output pulls is also put into a batch; a full batch is mixed down to mono
//! and moved into the shared buffer, which keeps the most recent samples
//! only. The code here is generic in the type of a sample and is handed the
//! arithmetic of mixing two samples by its caller.

use vstd::prelude::*;
use std::collections::VecDeque;

verus! {

/// Number of samples in a batch at which the batch is due to be flushed.
pub const FLUSH_INTERVAL: usize = 512;

/// Largest number of samples that the shared buffer keeps.
pub const MAX_BUFFER_SAMPLES: usize = 16384;

/// The last `cap` items of `s`, or all of `s` where it has no more.
pub open spec fn newest<T>(s: Seq<T>, cap: int) -> Seq<T> {
    if s.len() > cap {
        s.subrange(s.len() - cap, s.len() as int)
    } else {
        s
    }
}

/// Whether `mono` is a mix-down of the interleaved stereo samples `batch`
/// by `mix`: each pair of `batch` gives one sample of `mono`, in order, and
/// a sample left over at the end is taken as it is.
pub open spec fn mixes_to<T, F: Fn(T, T) -> T>(mix: F, batch: Seq<T>, mono: Seq<T>) -> bool {
    &&& mono.len() == (batch.len() + 1) / 2
    &&& forall|i: int|
        0 <= i < batch.len() / 2 ==> call_ensures(
            mix,
            (batch[2 * i], batch[2 * i + 1]),
            #[trigger] mono[i],
        )
    &&& batch.len() % 2 == 1 ==> mono[mono.len() - 1] == batch[batch.len() - 1]
}

/// Whether `mono` is what a relay of `channels` channels hands on for
/// `batch`: the mix-down for two channels, and `batch` itself otherwise.
pub open spec fn relays_to<T, F: Fn(T, T) -> T>(
    mix: F,
    channels: u16,
    batch: Seq<T>,
    mono: Seq<T>,
) -> bool {
    if channels == 2 {
        mixes_to(mix, batch, mono)
    } else {
        mono == batch
    }
}

/// The bounded queue of mono samples between the relay, which writes, and
/// the analyzer, which reads. The oldest sample is first.
pub struct SampleBuffer<T> {
    samples: VecDeque<T>,
}

impl<T> View for SampleBuffer<T> {
    type V = Seq<T>;

    closed spec fn view(&self) -> Seq<T> {
        self.samples@
    }
}

impl<T: Copy> SampleBuffer<T> {
    /// A buffer without samples.
    pub fn new() -> (buffer: Self)
        ensures
            buffer@ == Seq::<T>::empty(),
    {
        SampleBuffer { samples: VecDeque::with_capacity(8192) }
    }

    /// Number of samples held.
    pub fn len(&self) -> (n: usize)
        ensures
            n == self@.len(),
    {
        self.samples.len()
    }

    /// Drops every sample.
    pub fn clear(&mut self)
        ensures
            final(self)@ == Seq::<T>::empty(),
    {
        self.samples.clear();
    }

    /// Appends `sample` as the newest.
    pub fn push(&mut self, sample: T)
        ensures
            final(self)@ == old(self)@.push(sample),
    {
        self.samples.push_back(sample);
    }

    /// Drops the oldest samples until at most `cap` are left.
    pub fn trim(&mut self, cap: usize)
        ensures
            final(self)@ == newest(old(self)@, cap as int),
            final(self)@.len() <= cap,
    {
        let ghost all = self@;
        while self.samples.len() > cap
            invariant
                self@.len() <= all.len(),
                self@.len() >= cap || self@.len() == all.len(),
                self@ == all.subrange(all.len() - self@.len(), all.len() as int),
            decreases self@.len(),
        {
            let _ = self.samples.pop_front();
        }
        assert(all.subrange(0, all.len() as int) =~= all);
    }

    /// The most recent `count` samples, oldest first, or `None` where the
    /// buffer holds fewer.
    pub fn latest(&self, count: usize) -> (window: Option<Vec<T>>)
        ensures
            match window {
                Some(w) => self@.len() >= count && w@ == newest(self@, count as int),
                None => self@.len() < count,
            },
    {
        let n = self.samples.len();
        if n < count {
            return None;
        }
        let start = n - count;
        let mut window: Vec<T> = Vec::with_capacity(count);
        let mut i: usize = start;
        while i < n
            invariant
                n == self@.len(),
                start == n - count,
                start <= i <= n,
                window@ == self@.subrange(start as int, i as int),
            decreases n - i,
        {
            window.push(self.samples[i]);
            assert(window@ =~= self@.subrange(start as int, i + 1));
            i = i + 1;
        }
        assert(self@.subrange(0, n as int) =~= self@);
        Some(window)
    }
}

/// The writer's side: the batch of samples not yet handed on, and the
/// number of channels that the samples are interleaved for.
pub struct SampleRelay<T> {
    batch: Vec<T>,
    channels: u16,
}

/// What a [`SampleRelay`] is, as plain mathematical values.
pub ghost struct RelayView<T> {
    pub batch: Seq<T>,
    pub channels: u16,
}

impl<T> View for SampleRelay<T> {
    type V = RelayView<T>;

    closed spec fn view(&self) -> RelayView<T> {
        RelayView { batch: self.batch@, channels: self.channels }
    }
}

impl<T: Copy> SampleRelay<T> {
    /// A relay with an empty batch.
    pub fn new(channels: u16) -> (relay: Self)
        ensures
            relay@ == (RelayView { batch: Seq::<T>::empty(), channels }),
    {
        SampleRelay { batch: Vec::with_capacity(FLUSH_INTERVAL * 2), channels }
    }

    /// Number of channels that the samples are interleaved for.
    pub fn channels(&self) -> (n: u16)
        ensures
            n == self@.channels,
    {
        self.channels
    }

    /// Number of samples in the batch.
    pub fn pending(&self) -> (n: usize)
        ensures
            n == self@.batch.len(),
    {
        self.batch.len()
    }

    /// Puts `sample` into the batch and tells whether the batch is now due
    /// to be flushed.
    pub fn push(&mut self, sample: T) -> (due: bool)
        ensures
            final(self)@ == (RelayView { batch: old(self)@.batch.push(sample), ..old(self)@ }),
            due == (final(self)@.batch.len() >= FLUSH_INTERVAL),
    {
        self.batch.push(sample);
        self.batch.len() >= FLUSH_INTERVAL
    }

    /// Drops the batch without handing it on.
    pub fn discard(&mut self)
        ensures
            final(self)@ == (RelayView { batch: Seq::<T>::empty(), ..old(self)@ }),
    {
        self.batch.clear();
    }

    /// Drops the batch and everything in `buffer`, as after a seek, so that
    /// nothing from before the jump reaches the analyzer.
    pub fn reset(&mut self, buffer: &mut SampleBuffer<T>)
        ensures
            final(self)@ == (RelayView { batch: Seq::<T>::empty(), ..old(self)@ }),
            final(buffer)@ == Seq::<T>::empty(),
    {
        self.batch.clear();
        buffer.clear();
    }

    /// Hands the batch on to `buffer` and empties it. With two channels the
    /// batch is mixed down to mono by `mix` first. The buffer then keeps
    /// its most recent [`MAX_BUFFER_SAMPLES`] samples. An empty batch
    /// leaves the buffer as it is.
    pub fn flush<F: Fn(T, T) -> T>(&mut self, buffer: &mut SampleBuffer<T>, mix: F)
        requires
            forall|a: T, b: T| call_requires(mix, (a, b)),
        ensures
            final(self)@ == (RelayView { batch: Seq::<T>::empty(), ..old(self)@ }),
            old(self)@.batch.len() == 0 ==> final(buffer)@ == old(buffer)@,
            old(self)@.batch.len() > 0 ==> exists|mono: Seq<T>|
                #![trigger relays_to(mix, old(self)@.channels, old(self)@.batch, mono)]
                relays_to(mix, old(self)@.channels, old(self)@.batch, mono) && final(buffer)@
                    == newest(old(buffer)@ + mono, MAX_BUFFER_SAMPLES as int),
            old(self)@.batch.len() > 0 ==> final(buffer)@.len() <= MAX_BUFFER_SAMPLES,
    {
        let n = self.batch.len();
        if n == 0 {
            assert(self.batch@ =~= Seq::<T>::empty());
            return ;
        }
        let ghost batch = self.batch@;
        let ghost before = buffer@;
        let ghost mut mono: Seq<T> = Seq::empty();
        if self.channels == 2 {
            let mut i: usize = 0;
            while n - i >= 2
                invariant
                    n == batch.len(),
                    batch == self.batch@,
                    i % 2 == 0,
                    0 <= i <= n,
                    forall|a: T, b: T| call_requires(mix, (a, b)),
                    buffer@ == before + mono,
                    mono.len() == i / 2,
                    forall|k: int|
                        0 <= k < i / 2 ==> call_ensures(
                            mix,
                            (batch[2 * k], batch[2 * k + 1]),
                            #[trigger] mono[k],
                        ),
                decreases n - i,
            {
                let sample = mix(self.batch[i], self.batch[i + 1]);
                buffer.push(sample);
                proof {
                    let ghost longer = mono.push(sample);
                    assert(before + longer =~= (before + mono).push(sample));
                    assert forall|k: int| 0 <= k < (i + 2) / 2 implies call_ensures(
                        mix,
                        (batch[2 * k], batch[2 * k + 1]),
                        #[trigger] longer[k],
                    ) by {
                        if k < i / 2 {
                            assert(longer[k] == mono[k]);
                        }
                    }
                    mono = longer;
                }
                i = i + 2;
            }
            if i < n {
                let sample = self.batch[i];
                buffer.push(sample);
                proof {
                    let ghost longer = mono.push(sample);
                    assert(before + longer =~= (before + mono).push(sample));
                    assert forall|k: int| 0 <= k < n / 2 implies call_ensures(
                        mix,
                        (batch[2 * k], batch[2 * k + 1]),
                        #[trigger] longer[k],
                    ) by {
                        assert(longer[k] == mono[k]);
                    }
                    mono = longer;
                }
            }
            assert(mixes_to(mix, batch, mono));
        } else {
            let mut i: usize = 0;
            while i < n
                invariant
                    n == batch.len(),
                    batch == self.batch@,
                    0 <= i <= n,
                    buffer@ == before + mono,
                    mono == batch.subrange(0, i as int),
                decreases n - i,
            {
                buffer.push(self.batch[i]);
                proof {
                    let ghost longer = batch.subrange(0, i + 1);
                    assert(longer =~= mono.push(batch[i as int]));
                    assert(before + longer =~= (before + mono).push(batch[i as int]));
                    mono = longer;
                }
                i = i + 1;
            }
            assert(mono =~= batch);
        }
        assert(relays_to(mix, self.channels, batch, mono));
        buffer.trim(MAX_BUFFER_SAMPLES);
        self.batch.clear();
    }
}

} // verus!
