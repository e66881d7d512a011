//! The ad-inserting mixer: a splicing state machine that replaces
//! advertisement segments of the input stream with a locally held, looping
//! ad track, crossfading at both boundaries.
//!
//! The caller drives the machine by classification: [`AdsMixer::content`]
//! for a frame classified as content, [`AdsMixer::advertisement`] for one
//! classified as advertisement. Every call emits exactly one frame — one in,
//! one out — with a freshly sequenced timestamp; input timestamps are
//! discarded. An ad-classified frame opens an ad segment while the content
//! lookahead buffer has not outgrown the ad track — once it has, further
//! ad frames echo back through the content path until the buffer drains —
//! and the machine leaves the segment early enough to spend the ad's tail
//! on the exit crossfade.

use vstd::prelude::*;

use crate::crossfade::{
    fader_after, fader_yield, spec_f64_bits_positive, CrossFadePair, CrossFader,
};
use crate::frame::{silence_like, silence_samples, views_of, AudioFrame, FrameView, MixedFrame};
use crate::pts::{pts_after, stamp_after, Pts};

verus! {

/// The looping ad track: a fixed run of frames and a replay cursor. Once
/// every frame was handed out the track silently starts over — it never
/// errors and never starves a crossfade.
pub struct AdsBox {
    /// The ad track's frames, in playback order.
    pub frames: Vec<AudioFrame>,
    /// Frames handed out since the last wrap or reset.
    pub played: usize,
}

/// Index of the frame [`AdsBox::next`] hands out: the replay cursor, or the
/// track's start when the previous round just finished.
pub open spec fn ad_replay_index(b: AdsBox) -> int {
    if b.played == b.frames@.len() {
        0
    } else {
        b.played as int
    }
}

impl AdsBox {
    /// The replay cursor never runs past the track.
    pub open spec fn wf(self) -> bool {
        self.played <= self.frames@.len()
    }

    /// A track over `frames`, cursor at the start.
    pub fn new(frames: Vec<AudioFrame>) -> (r: Self)
        ensures
            r.frames == frames,
            r.played == 0,
    {
        AdsBox { frames, played: 0 }
    }

    /// The next ad frame, looping past the end of the track; `None` only
    /// when the track holds no frames at all.
    pub fn next(&mut self) -> (r: Option<AudioFrame>)
        requires
            old(self).wf(),
        ensures
            final(self).frames == old(self).frames,
            final(self).wf(),
            old(self).frames@.len() == 0 ==> r is None && final(self).played == old(self).played,
            old(self).frames@.len() > 0 ==> {
                &&& r matches Some(f) && f@ == old(self).frames@[ad_replay_index(*old(self))]@
                &&& final(self).played == ad_replay_index(*old(self)) + 1
            },
    {
        if self.frames.len() == 0 {
            return None;
        }
        if self.played == self.frames.len() {
            self.reset();
        }
        let f = self.frames[self.played].clone();
        self.played = self.played + 1;
        Some(f)
    }

    /// Frames left before the track wraps.
    pub fn left(&self) -> (n: usize)
        requires
            self.wf(),
        ensures
            n == self.frames@.len() - self.played,
    {
        self.frames.len() - self.played
    }

    /// Rewinds the replay cursor to the track's start.
    pub fn reset(&mut self)
        ensures
            final(self).frames == old(self).frames,
            final(self).played == 0,
    {
        self.played = 0;
    }

    /// Length of the ad track.
    pub fn len(&self) -> (n: usize)
        ensures
            n == self.frames@.len(),
    {
        self.frames.len()
    }
}

/// The ad-inserting mixer's state: the ad track, the crossfade cursor, the
/// segment flag, the content lookahead buffer, and the timestamp sequencer.
pub struct AdsMixer {
    /// The looping ad track spliced in over advertisement segments.
    pub ads: AdsBox,
    /// Cursor over the crossfade table; starts drained, so the machine
    /// emits untouched content until the first transition.
    pub fader: CrossFader,
    /// Whether the machine is inside an ad segment.
    pub ad_segment: bool,
    /// Content frames buffered while the ad track plays, emitted again on
    /// the way out of the segment.
    pub play_buffer: Vec<AudioFrame>,
    /// The output timestamp sequencer.
    pub pts: Pts,
}

impl AdsMixer {
    /// Samples per frame shared by every frame the mixer touches, fixed by
    /// the ad track at construction.
    pub open spec fn frame_size(self) -> nat {
        self.ads.frames@[0]@.samples.len()
    }

    /// Well-formedness: a nonempty ad track of uniformly shaped frames, a
    /// buffer of equally shaped frames, and a timestamp cursor advancing by
    /// exactly that shape.
    pub open spec fn wf(self) -> bool {
        &&& self.ads.wf()
        &&& self.ads.frames@.len() > 0
        &&& forall|i: int|
            0 <= i < self.ads.frames@.len() ==> (#[trigger] self.ads.frames@[i])@.samples.len()
                == self.frame_size()
        &&& forall|i: int|
            0 <= i < self.play_buffer@.len() ==> (#[trigger] self.play_buffer@[i])@.samples.len()
                == self.frame_size()
        &&& self.pts.samples_per_frame == self.frame_size()
    }

    /// The machine keeps replaying the ad although the classifier reports
    /// content again: more ad frames remain than the exit crossfade needs.
    pub open spec fn stays_in_ad(self) -> bool {
        self.ad_segment && self.ads.frames@.len() - self.ads.played > self.fader.table@.len()
            / 2
    }

    /// Outside an ad segment, with the lookahead buffer grown past the ad
    /// track's length, an ad-classified frame still echoes back through the
    /// content path.
    pub open spec fn echoes_content(self) -> bool {
        !self.ad_segment && self.play_buffer@.len() > self.ads.frames@.len()
    }

    /// A mixer over `ad_frames` — a nonempty track of uniformly shaped
    /// frames — and the crossfade table `cross_fade`. The timestamp
    /// sequencer takes frame size and rate from the track's first frame.
    pub fn new(ad_frames: Vec<AudioFrame>, cross_fade: Vec<CrossFadePair>) -> (r: Self)
        requires
            ad_frames@.len() > 0,
            forall|i: int|
                0 <= i < ad_frames@.len() ==> (#[trigger] ad_frames@[i])@.samples.len()
                    == ad_frames@[0]@.samples.len(),
        ensures
            r.wf(),
            r.ads.frames == ad_frames,
            r.ads.played == 0,
            r.fader.table == cross_fade,
            r.fader.pos == cross_fade@.len(),
            r.ad_segment == false,
            r.play_buffer@.len() == 0,
            r.pts == (Pts {
                samples_per_frame: ad_frames@[0]@.samples.len() as u64,
                rate: ad_frames@[0]@.rate,
                cursor: 0,
            }),
    {
        let pts = Pts::from_frame(&ad_frames[0]);
        AdsMixer {
            ads: AdsBox::new(ad_frames),
            fader: CrossFader::drained(cross_fade),
            ad_segment: false,
            play_buffer: Vec::new(),
            pts,
        }
    }

    /// Accepts one frame the classifier took for content. The frame joins
    /// the lookahead buffer; the machine then either keeps replaying the ad
    /// — the exit crossfade is not yet affordable — or emits the oldest
    /// buffered content frame, crossfading back from the ad on the way out.
    pub fn content(&mut self, frame: &AudioFrame) -> (out: MixedFrame)
        requires
            old(self).wf(),
            frame@.samples.len() == old(self).frame_size(),
            old(self).pts.can_advance(),
        ensures
            final(self).wf(),
            content_step(*old(self), *frame, *final(self), out),
            out.wf(),
    {
        let ghost pre = *self;
        self.play_buffer.push(frame.clone());
        proof {
            assert(views_of(self.play_buffer@) =~= views_of(pre.play_buffer@).push(frame@));
        }
        if self.ad_segment && self.ads.left() > self.fader.len() / 2 {
            self.emit_advertisement(frame)
        } else {
            self.emit_content(frame)
        }
    }

    /// Accepts one frame the classifier took for an advertisement. While
    /// the lookahead buffer has not outgrown the ad track, the machine is
    /// in (or enters) the ad segment and replays the track, crossfading
    /// the content out at the entry; with the buffer grown past the track
    /// the frame is still treated as content instead.
    pub fn advertisement(&mut self, frame: &AudioFrame) -> (out: MixedFrame)
        requires
            old(self).wf(),
            frame@.samples.len() == old(self).frame_size(),
            old(self).pts.can_advance(),
        ensures
            final(self).wf(),
            advertisement_step(*old(self), *frame, *final(self), out),
            out.wf(),
    {
        let ghost pre = *self;
        if !self.ad_segment && self.play_buffer.len() > self.ads.len() {
            self.play_buffer.push(frame.clone());
            proof {
                assert(views_of(self.play_buffer@) =~= views_of(pre.play_buffer@).push(frame@));
            }
            self.emit_content(frame)
        } else {
            self.emit_advertisement(frame)
        }
    }

    /// Enters the ad segment if not inside one: rewinds the ad track and
    /// the crossfade cursor, so the entry gets a full fade over a fresh ad.
    fn start_ad_segment(&mut self)
        ensures
            final(self).ads.frames == old(self).ads.frames,
            final(self).ads.played == if old(self).ad_segment {
                old(self).ads.played as int
            } else {
                0
            },
            final(self).fader.table == old(self).fader.table,
            final(self).fader.pos == if old(self).ad_segment {
                old(self).fader.pos as int
            } else {
                0
            },
            final(self).ad_segment == true,
            final(self).play_buffer == old(self).play_buffer,
            final(self).pts == old(self).pts,
    {
        if !self.ad_segment {
            self.ads.reset();
            self.fader.reset();
            self.ad_segment = true;
        }
    }

    /// Leaves the ad segment if inside one: rewinds the crossfade cursor —
    /// the ad track keeps its position — so the exit gets a full fade.
    fn stop_ad_segment(&mut self)
        ensures
            final(self).ads == old(self).ads,
            final(self).fader.table == old(self).fader.table,
            final(self).fader.pos == if old(self).ad_segment {
                0
            } else {
                old(self).fader.pos as int
            },
            final(self).ad_segment == false,
            final(self).play_buffer == old(self).play_buffer,
            final(self).pts == old(self).pts,
    {
        if self.ad_segment {
            self.fader.reset();
            self.ad_segment = false;
        }
    }

    /// Emits one frame of the ad segment: the incoming content frame fades
    /// out, the next ad frame — or silence, while the pair's fade-in side
    /// is inaudible or no ad frame can be had — fades in.
    fn emit_advertisement(&mut self, frame: &AudioFrame) -> (out: MixedFrame)
        requires
            old(self).wf(),
            frame@.samples.len() == old(self).frame_size(),
            old(self).pts.can_advance(),
        ensures
            final(self).wf(),
            ad_emit_step(*old(self), frame@, *final(self), out),
            out.wf(),
    {
        self.start_ad_segment();
        let cf = self.fader.next();
        let ad = if cf.fades_in() {
            match self.ads.next() {
                Some(f) => f,
                None => silence_like(frame),
            }
        } else {
            silence_like(frame)
        };
        let t = self.pts.next();
        let fade_out_src = frame.samples.clone();
        proof {
            assert(fade_out_src@ =~= frame.samples@);
        }
        MixedFrame { fade: cf, fade_out_src, fade_in_src: ad.samples, pts: t }
    }

    /// Emits one content frame: the oldest buffered frame fades in, the
    /// next ad frame — or silence, while the pair's fade-out side is
    /// inaudible or no ad frame can be had — fades out.
    fn emit_content(&mut self, frame: &AudioFrame) -> (out: MixedFrame)
        requires
            old(self).wf(),
            old(self).play_buffer@.len() > 0,
            frame@.samples.len() == old(self).frame_size(),
            old(self).pts.can_advance(),
        ensures
            final(self).wf(),
            content_emit_step(*old(self), *final(self), out),
            out.wf(),
    {
        let ghost pre = *self;
        self.stop_ad_segment();
        let cf = self.fader.next();
        let ad = if cf.fades_out() {
            match self.ads.next() {
                Some(f) => f,
                None => silence_like(frame),
            }
        } else {
            silence_like(frame)
        };
        let front = self.play_buffer.remove(0);
        proof {
            assert(views_of(self.play_buffer@) =~= views_of(pre.play_buffer@).drop_first());
        }
        let t = self.pts.next();
        MixedFrame { fade: cf, fade_out_src: ad.samples, fade_in_src: front.samples, pts: t }
    }
}

/// One ad-segment emission from state `pre`, incoming frame view `fv`,
/// lookahead buffer (as frame views) `buf`: the relation between `pre` and
/// the post state and output that [`AdsMixer`] commits to. Entering from
/// outside a segment rewinds the ad track and the fader; the incoming
/// frame fades out against the next ad frame — or silence while the pair's
/// fade-in side is inaudible — and the buffer is left as `buf`.
pub open spec fn ad_emit_rel(
    pre: AdsMixer,
    buf: Seq<FrameView>,
    fv: FrameView,
    post: AdsMixer,
    out: MixedFrame,
) -> bool {
    let played0 = if pre.ad_segment {
        pre.ads.played as int
    } else {
        0
    };
    let box0 = AdsBox { played: played0 as usize, ..pre.ads };
    let fpos0 = if pre.ad_segment {
        pre.fader.pos as int
    } else {
        0
    };
    let cf = fader_yield(pre.fader.table@, fpos0);
    let take_ad = spec_f64_bits_positive(cf.fade_in);
    let j = ad_replay_index(box0);
    let ad_samples = if take_ad {
        pre.ads.frames@[j]@.samples
    } else {
        silence_samples(pre.frame_size())
    };
    &&& post.ads.frames == pre.ads.frames
    &&& post.ads.played == if take_ad {
        j + 1
    } else {
        played0
    }
    &&& post.fader.table == pre.fader.table
    &&& post.fader.pos == fader_after(pre.fader.table@, fpos0)
    &&& post.ad_segment == true
    &&& views_of(post.play_buffer@) == buf
    &&& post.pts == pts_after(pre.pts)
    &&& out.fade == cf
    &&& out.fade_out_src@ == fv.samples
    &&& out.fade_in_src@ == ad_samples
    &&& out.pts == stamp_after(pre.pts)
}

/// One content emission from state `pre` whose buffer (as frame views) is
/// `buf`: leaving an ad segment rewinds the fader; the oldest buffered
/// frame fades in against the next ad frame — or silence while the pair's
/// fade-out side is inaudible — and leaves the buffer.
pub open spec fn content_emit_rel(
    pre: AdsMixer,
    buf: Seq<FrameView>,
    post: AdsMixer,
    out: MixedFrame,
) -> bool {
    let fpos0 = if pre.ad_segment {
        0
    } else {
        pre.fader.pos as int
    };
    let cf = fader_yield(pre.fader.table@, fpos0);
    let take_ad = spec_f64_bits_positive(cf.fade_out);
    let j = ad_replay_index(pre.ads);
    let ad_samples = if take_ad {
        pre.ads.frames@[j]@.samples
    } else {
        silence_samples(pre.frame_size())
    };
    &&& post.ads.frames == pre.ads.frames
    &&& post.ads.played == if take_ad {
        j + 1
    } else {
        pre.ads.played as int
    }
    &&& post.fader.table == pre.fader.table
    &&& post.fader.pos == fader_after(pre.fader.table@, fpos0)
    &&& post.ad_segment == false
    &&& views_of(post.play_buffer@) == buf.drop_first()
    &&& post.pts == pts_after(pre.pts)
    &&& out.fade == cf
    &&& out.fade_out_src@ == ad_samples
    &&& out.fade_in_src@ == buf[0].samples
    &&& out.pts == stamp_after(pre.pts)
}

/// The step relation of [`AdsMixer::emit_advertisement`]: an ad emission
/// with the lookahead buffer carried over unchanged.
pub open spec fn ad_emit_step(pre: AdsMixer, fv: FrameView, post: AdsMixer, out: MixedFrame) -> bool {
    ad_emit_rel(pre, views_of(pre.play_buffer@), fv, post, out)
}

/// The step relation of [`AdsMixer::emit_content`]: a content emission
/// consuming the front of the lookahead buffer.
pub open spec fn content_emit_step(pre: AdsMixer, post: AdsMixer, out: MixedFrame) -> bool {
    content_emit_rel(pre, views_of(pre.play_buffer@), post, out)
}

/// The step relation of [`AdsMixer::content`]: the incoming frame joins the
/// lookahead buffer; the machine stays in the ad segment while the exit
/// crossfade is not yet affordable, and emits buffered content otherwise.
pub open spec fn content_step(pre: AdsMixer, frame: AudioFrame, post: AdsMixer, out: MixedFrame) -> bool {
    let pushed = views_of(pre.play_buffer@).push(frame@);
    if pre.stays_in_ad() {
        ad_emit_rel(pre, pushed, frame@, post, out)
    } else {
        content_emit_rel(pre, pushed, post, out)
    }
}

/// The exit crossfade is always affordable: a content-classified frame
/// moves the machine out of the ad segment only once the ad track's
/// remaining frames are down to half the crossfade table or fewer — the
/// tail reserved for completing the exit fade.
pub proof fn lemma_exit_reserves_ad_tail(
    pre: AdsMixer,
    frame: AudioFrame,
    post: AdsMixer,
    out: MixedFrame,
)
    requires
        pre.ad_segment,
        content_step(pre, frame, post, out),
        !post.ad_segment,
    ensures
        pre.ads.frames@.len() - pre.ads.played <= pre.fader.table@.len() / 2,
{
}

/// The entry crossfade is always affordable: an ad-classified frame moves
/// the machine into the ad segment only while the content lookahead
/// buffer has not outgrown the ad track, so enough buffered content
/// remains to crossfade against on the way out.
pub proof fn lemma_entry_bounds_lookahead(
    pre: AdsMixer,
    frame: AudioFrame,
    post: AdsMixer,
    out: MixedFrame,
)
    requires
        !pre.ad_segment,
        advertisement_step(pre, frame, post, out),
        post.ad_segment,
    ensures
        pre.play_buffer@.len() <= pre.ads.frames@.len(),
{
}

/// The step relation of [`AdsMixer::advertisement`]: with the lookahead
/// buffer grown past the ad track the frame is treated as content — it
/// joins the buffer and a buffered frame is emitted — and otherwise the
/// machine is in (or enters) the ad segment and replays the track.
pub open spec fn advertisement_step(pre: AdsMixer, frame: AudioFrame, post: AdsMixer, out: MixedFrame) -> bool {
    if pre.echoes_content() {
        content_emit_rel(pre, views_of(pre.play_buffer@).push(frame@), post, out)
    } else {
        ad_emit_rel(pre, views_of(pre.play_buffer@), frame@, post, out)
    }
}

} // verus!
