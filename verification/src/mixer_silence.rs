//! The silence-substituting mixer: a two-state splicing machine driven
//! directly by the classifier's verdict, fading to silence over
//! advertisement segments and back to the real audio after them.

use vstd::prelude::*;

use crate::crossfade::{fader_after, fader_yield, CrossFader};
use crate::frame::{silence_like, silence_samples, AudioFrame, ContentKind, FrameView, MixedFrame};
use crate::pts::{Pts, TimeStamp};

verus! {

/// The silence-substituting mixer's state: the crossfade cursor, the
/// segment flag, and the timestamp sequencer. No lookahead buffer: every
/// frame is answered at once from the classifier's verdict.
pub struct SilenceMixer {
    /// Cursor over the crossfade table, rewound on every state transition
    /// so each transition gets a full, fresh fade.
    pub cross_fader: CrossFader,
    /// Whether the machine is inside an ad segment.
    pub ad_segment: bool,
    /// The output timestamp sequencer; its frame duration resynchronizes
    /// from every observed frame.
    pub pts: Pts,
}

impl SilenceMixer {
    /// A mixer over the given crossfade cursor, outside any ad segment.
    pub fn new(cross_fader: CrossFader) -> (r: Self)
        ensures
            r.cross_fader == cross_fader,
            r.ad_segment == false,
            r.pts == (Pts { samples_per_frame: 2048, rate: 48000, cursor: 0 }),
    {
        SilenceMixer { cross_fader, ad_segment: false, pts: Pts::new(2_048, 48_000) }
    }

    /// Enters the ad segment if not inside one, rewinding the crossfade
    /// cursor for a fresh fade into silence.
    pub fn start_ad_segment(&mut self)
        ensures
            final(self).cross_fader.table == old(self).cross_fader.table,
            final(self).cross_fader.pos == if old(self).ad_segment {
                old(self).cross_fader.pos as int
            } else {
                0
            },
            final(self).ad_segment == true,
            final(self).pts == old(self).pts,
    {
        if !self.ad_segment {
            self.cross_fader.reset();
            self.ad_segment = true;
        }
    }

    /// Leaves the ad segment if inside one, rewinding the crossfade cursor
    /// for a fresh fade back to the real audio.
    pub fn stop_ad_segment(&mut self)
        ensures
            final(self).cross_fader.table == old(self).cross_fader.table,
            final(self).cross_fader.pos == if old(self).ad_segment {
                0
            } else {
                old(self).cross_fader.pos as int
            },
            final(self).ad_segment == false,
            final(self).pts == old(self).pts,
    {
        if self.ad_segment {
            self.cross_fader.reset();
            self.ad_segment = false;
        }
    }

    /// Accepts one classified frame and emits exactly one frame: over an
    /// advertisement the real audio fades out against silence, otherwise
    /// silence fades out against the real audio. The timestamp sequencer
    /// first resynchronizes its frame duration from the observed frame,
    /// then advances once.
    pub fn push(&mut self, kind: ContentKind, frame: &AudioFrame) -> (out: MixedFrame)
        requires
            old(self).pts.cursor + frame@.samples.len() <= u64::MAX,
        ensures
            silence_step(*old(self), kind, frame@, *final(self), out),
            out.wf(),
    {
        self.pts.update(frame);
        let silence = silence_like(frame);
        let fade_pair;
        let fade_out_src: Vec<u32>;
        let fade_in_src: Vec<u32>;
        match kind {
            ContentKind::Advertisement => {
                self.start_ad_segment();
                fade_pair = self.cross_fader.next();
                let own = frame.samples.clone();
                proof {
                    assert(own@ =~= frame.samples@);
                }
                fade_out_src = own;
                fade_in_src = silence.samples;
            },
            ContentKind::Music | ContentKind::Talk | ContentKind::Unknown => {
                self.stop_ad_segment();
                fade_pair = self.cross_fader.next();
                let own = frame.samples.clone();
                proof {
                    assert(own@ =~= frame.samples@);
                }
                fade_out_src = silence.samples;
                fade_in_src = own;
            },
        }
        let t = self.pts.next();
        MixedFrame { fade: fade_pair, fade_out_src, fade_in_src, pts: t }
    }
}

/// The step relation of [`SilenceMixer::push`]: the crossfade cursor
/// rewinds exactly when the segment flag flips, the frame duration
/// resynchronizes from the observed frame, and the emitted frame blends
/// the real audio with a frame's worth of silence — the real audio on the
/// fade-out side inside an ad segment, on the fade-in side outside one.
pub open spec fn silence_step(
    pre: SilenceMixer,
    kind: ContentKind,
    fv: FrameView,
    post: SilenceMixer,
    out: MixedFrame,
) -> bool {
    let entering = kind == ContentKind::Advertisement;
    let fpos0 = if entering == pre.ad_segment {
        pre.cross_fader.pos as int
    } else {
        0
    };
    let n = fv.samples.len();
    &&& post.cross_fader.table == pre.cross_fader.table
    &&& post.cross_fader.pos == fader_after(pre.cross_fader.table@, fpos0)
    &&& post.ad_segment == entering
    &&& post.pts == (Pts {
        samples_per_frame: n as u64,
        rate: pre.pts.rate,
        cursor: (pre.pts.cursor + n) as u64,
    })
    &&& out.fade == fader_yield(pre.cross_fader.table@, fpos0)
    &&& out.fade_out_src@ == if entering {
        fv.samples
    } else {
        silence_samples(n)
    }
    &&& out.fade_in_src@ == if entering {
        silence_samples(n)
    } else {
        fv.samples
    }
    &&& out.pts == (TimeStamp { ticks: (pre.pts.cursor + n) as u64, rate: pre.pts.rate })
}

/// Every state transition gets a full, fresh fade: whenever a push flips
/// the segment flag, the emitted frame is weighted by the table's first
/// pair and the cursor stands right after it, regardless of how far an
/// earlier transition had walked the table.
pub proof fn lemma_transition_rewinds_fade(
    pre: SilenceMixer,
    kind: ContentKind,
    fv: FrameView,
    post: SilenceMixer,
    out: MixedFrame,
)
    requires
        silence_step(pre, kind, fv, post, out),
        post.ad_segment != pre.ad_segment,
    ensures
        out.fade == fader_yield(pre.cross_fader.table@, 0),
        post.cross_fader.pos == fader_after(pre.cross_fader.table@, 0),
{
}

} // verus!
