//! Presentation-timestamp sequencing.
//!
//! A mixer never copies the timestamps of the frames it receives: the two
//! spliced input streams carry independent, non-aligned timing. Instead a
//! [`Pts`] cursor manufactures continuity — every emitted frame gets the next
//! timestamp, exactly one frame duration after the previous one.

use vstd::prelude::*;

use crate::frame::AudioFrame;

verus! {

/// A presentation timestamp: a count of ticks over a time base of one tick
/// per sample at `rate` samples per second.
#[derive(Clone, Copy, PartialEq, Eq, Structural, Debug)]
pub struct TimeStamp {
    /// Ticks since the start of the output stream, one tick per sample.
    pub ticks: u64,
    /// Samples per second: the time base of `ticks`.
    pub rate: u32,
}

/// The timestamp cursor of one mixer: samples per frame, sample rate, and the
/// tick count of the frame emitted last.
pub struct Pts {
    /// Samples each emitted frame advances the cursor by.
    pub samples_per_frame: u64,
    /// Samples per second of the output stream.
    pub rate: u32,
    /// Ticks of the most recently produced timestamp; 0 before the first.
    pub cursor: u64,
}

impl Pts {
    /// The cursor can advance once more without exceeding the tick range.
    pub open spec fn can_advance(self) -> bool {
        self.cursor + self.samples_per_frame <= u64::MAX
    }

    /// A fresh cursor for frames of `samples_per_frame` samples at `rate`.
    pub fn new(samples_per_frame: u32, rate: u32) -> (r: Self)
        ensures
            r.samples_per_frame == samples_per_frame,
            r.rate == rate,
            r.cursor == 0,
    {
        Pts { samples_per_frame: samples_per_frame as u64, rate, cursor: 0 }
    }

    /// A fresh cursor taking frame size and rate from an observed frame.
    pub fn from_frame(frame: &AudioFrame) -> (r: Self)
        ensures
            r.samples_per_frame == frame.samples@.len(),
            r.rate == frame.rate,
            r.cursor == 0,
    {
        Pts { samples_per_frame: frame.samples.len() as u64, rate: frame.rate, cursor: 0 }
    }

    /// The next output timestamp: advances the cursor by one frame duration
    /// and returns its new position. Successive calls yield strictly
    /// increasing timestamps, spaced by exactly `samples_per_frame` ticks.
    pub fn next(&mut self) -> (t: TimeStamp)
        requires
            old(self).can_advance(),
        ensures
            final(self).samples_per_frame == old(self).samples_per_frame,
            final(self).rate == old(self).rate,
            final(self).cursor == old(self).cursor + old(self).samples_per_frame,
            t.ticks == final(self).cursor,
            t.rate == old(self).rate,
            old(self).samples_per_frame > 0 ==> t.ticks > old(self).cursor,
    {
        self.cursor = self.cursor + self.samples_per_frame;
        TimeStamp { ticks: self.cursor, rate: self.rate }
    }

    /// Resynchronizes the frame duration from an observed frame, keeping the
    /// rate and the cursor: a splice may change the frame size, never the
    /// continuity of the output timing.
    pub fn update(&mut self, frame: &AudioFrame)
        ensures
            final(self).samples_per_frame == frame.samples@.len(),
            final(self).rate == old(self).rate,
            final(self).cursor == old(self).cursor,
    {
        self.samples_per_frame = frame.samples.len() as u64;
    }
}

/// The sequencer's state after one advance.
pub open spec fn pts_after(p: Pts) -> Pts {
    Pts {
        samples_per_frame: p.samples_per_frame,
        rate: p.rate,
        cursor: (p.cursor + p.samples_per_frame) as u64,
    }
}

/// The timestamp one advance of `p` stamps on the emitted frame.
pub open spec fn stamp_after(p: Pts) -> TimeStamp {
    TimeStamp { ticks: (p.cursor + p.samples_per_frame) as u64, rate: p.rate }
}

} // verus!
