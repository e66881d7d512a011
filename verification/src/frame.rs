//! Audio frames and the value type a mixer emits.

use vstd::prelude::*;

use crate::crossfade::CrossFadePair;
use crate::pts::TimeStamp;

verus! {

/// The classifier's verdict for one input frame.
#[derive(Clone, Copy, PartialEq, Eq, Structural, Debug)]
pub enum ContentKind {
    Music,
    Talk,
    Advertisement,
    Unknown,
}

/// One block of decoded PCM audio: a plane of samples, the sample rate and a
/// presentation timestamp. A sample is carried as the IEEE-754 bit pattern of
/// one single-precision value, so frames from any source compare and travel
/// exactly, with no rounding on the way.
pub struct AudioFrame {
    /// Samples of the frame, each the bit pattern of one PCM sample.
    pub samples: Vec<u32>,
    /// Samples per second of the stream this frame belongs to.
    pub rate: u32,
    /// Presentation timestamp the frame arrived with.
    pub pts: TimeStamp,
}

/// Bit pattern of a silent (zero-valued) sample.
pub const SILENCE_SAMPLE: u32 = 0;

/// The mathematical value of a frame: its samples as a sequence of bit
/// patterns, with rate and timestamp. Two frames with the same view are
/// interchangeable to every splicing machine.
pub ghost struct FrameView {
    /// Samples of the frame, each the bit pattern of one PCM sample.
    pub samples: Seq<u32>,
    /// Samples per second of the stream this frame belongs to.
    pub rate: u32,
    /// Presentation timestamp the frame arrived with.
    pub pts: TimeStamp,
}

impl View for AudioFrame {
    type V = FrameView;

    open spec fn view(&self) -> FrameView {
        FrameView { samples: self.samples@, rate: self.rate, pts: self.pts }
    }
}

/// The views of a run of frames.
pub open spec fn views_of(frames: Seq<AudioFrame>) -> Seq<FrameView> {
    frames.map_values(|f: AudioFrame| f@)
}

impl Clone for AudioFrame {
    fn clone(&self) -> (r: Self)
        ensures
            r@ == self@,
    {
        let samples = self.samples.clone();
        proof {
            assert(samples@ =~= self.samples@);
        }
        AudioFrame { samples, rate: self.rate, pts: self.pts }
    }
}

impl AudioFrame {
    /// Number of samples the frame holds.
    pub fn len(&self) -> (n: usize)
        ensures
            n == self.samples@.len(),
    {
        self.samples.len()
    }
}

/// A frame's worth of silence: as many zero samples as `frame` holds, at the
/// same rate. Substituted for ad audio whenever no ad sample may sound.
pub fn silence_like(frame: &AudioFrame) -> (r: AudioFrame)
    ensures
        r@.samples == silence_samples(frame@.samples.len()),
        r@.rate == frame@.rate,
{
    let n = frame.samples.len();
    let mut samples: Vec<u32> = Vec::new();
    let mut i: usize = 0;
    while i < n
        invariant
            i <= n,
            samples@.len() == i,
            forall|k: int| 0 <= k < i ==> samples@[k] == SILENCE_SAMPLE,
        decreases n - i,
    {
        samples.push(SILENCE_SAMPLE);
        i = i + 1;
    }
    proof {
        assert(samples@ =~= silence_samples(frame.samples@.len()));
    }
    AudioFrame { samples, rate: frame.rate, pts: TimeStamp { ticks: 0, rate: frame.rate } }
}

/// A run of `n` silent samples.
pub open spec fn silence_samples(n: nat) -> Seq<u32> {
    Seq::new(n, |i: int| SILENCE_SAMPLE)
}

/// One output frame of a mixer: two same-length sample planes still to be
/// blended, the coefficient pair that weights them, and the freshly sequenced
/// presentation timestamp. The blended frame's sample at index `i` is
/// `fade.fade_out · fade_out_src[i] + fade.fade_in · fade_in_src[i]`,
/// evaluated by the embedding layer, which owns all floating-point work.
pub struct MixedFrame {
    /// Coefficient pair weighting the two sources.
    pub fade: CrossFadePair,
    /// Samples weighted by the pair's fade-out coefficient.
    pub fade_out_src: Vec<u32>,
    /// Samples weighted by the pair's fade-in coefficient.
    pub fade_in_src: Vec<u32>,
    /// Timestamp of the emitted frame.
    pub pts: TimeStamp,
}

impl MixedFrame {
    /// Both sample planes have the same shape, so blending them sample-wise
    /// is well defined.
    pub open spec fn wf(self) -> bool {
        self.fade_out_src@.len() == self.fade_in_src@.len()
    }
}

} // verus!
