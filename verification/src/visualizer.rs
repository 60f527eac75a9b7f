//! The animation clock of the visualizer.

use vstd::prelude::*;
use crate::analysis::AudioFeatures;

verus! {

/// Counts the frames of the wave animation. The count wraps around.
#[derive(Debug, Clone, Copy, PartialEq, Eq, Structural)]
pub struct MatrixRain {
    tick: u64,
}

impl View for MatrixRain {
    type V = u64;

    closed spec fn view(&self) -> u64 {
        self.tick
    }
}

/// The frame count that follows `tick`.
pub open spec fn next_tick(tick: u64) -> u64 {
    if tick == u64::MAX {
        0
    } else {
        (tick + 1) as u64
    }
}

impl MatrixRain {
    /// A clock at frame 0. The size of the drawing area plays no part.
    pub fn new(_width: usize, _height: usize) -> (rain: MatrixRain)
        ensures
            rain@ == 0,
    {
        MatrixRain { tick: 0 }
    }

    /// Tells the clock the size of the drawing area, which it has no use for.
    pub fn resize(&mut self, _width: usize, _height: usize)
        ensures
            final(self)@ == old(self)@,
    {
    }

    /// Advances the animation by one frame, whatever the features are.
    pub fn update(&mut self, _features: &AudioFeatures)
        ensures
            final(self)@ == next_tick(old(self)@),
    {
        self.tick = self.tick.wrapping_add(1);
    }

    /// The frame count.
    pub fn tick(&self) -> (t: u64)
        ensures
            t == self@,
    {
        self.tick
    }
}

} // verus!
