//! The silence-substituting mixer, driven by the classifier's per-frame
//! verdict — sample-exact fades to silence and back, gap-free timestamps.

use restreamer::crossfade::{CrossFadePair, CrossFader};
use restreamer::frame::{AudioFrame, ContentKind, MixedFrame};
use restreamer::mixer_silence::SilenceMixer;
use restreamer::pts::TimeStamp;

const FRAME_RATE: u32 = 44_100;
const OUT_RATE: u32 = 48_000;

fn pair(fade_out: f64, fade_in: f64) -> CrossFadePair {
    CrossFadePair::new(fade_out.to_bits(), fade_in.to_bits())
}

fn parabolic_table(size: usize) -> Vec<CrossFadePair> {
    let step = 2.0_f64 / (size - 1) as f64;
    (0..size)
        .map(|n| n as f64 * step)
        .map(|x| pair((1.0 - 0.75 * x * x).max(0.0), (1.0 - 0.75 * (2.0 - x) * (2.0 - x)).max(0.0)))
        .collect()
}

fn create_frames(count: usize, value: f32) -> Vec<AudioFrame> {
    (0..count)
        .map(|_| AudioFrame {
            samples: vec![value.to_bits()],
            rate: FRAME_RATE,
            pts: TimeStamp { ticks: 0, rate: FRAME_RATE },
        })
        .collect()
}

fn resolve(out: &MixedFrame) -> Vec<f32> {
    let fade_out = f64::from_bits(out.fade.fade_out);
    let fade_in = f64::from_bits(out.fade.fade_in);
    out.fade_out_src
        .iter()
        .zip(out.fade_in_src.iter())
        .map(|(l, r)| {
            (fade_out * f32::from_bits(*l) as f64 + fade_in * f32::from_bits(*r) as f64) as f32
        })
        .collect()
}

fn pts_seq(count: usize) -> Vec<TimeStamp> {
    (1..=count).map(|k| TimeStamp { ticks: k as u64, rate: OUT_RATE }).collect()
}

#[test]
fn test_music_to_advertisement() {
    let music = create_frames(20, 1.0);

    let mut sut = SilenceMixer::new(CrossFader::new(parabolic_table(3)));

    let mut output = vec![];

    for frame in music.iter().take(5) {
        output.push(sut.push(ContentKind::Music, frame));
    }

    for frame in music.iter().skip(5).take(10) {
        output.push(sut.push(ContentKind::Advertisement, frame));
    }

    for frame in music.iter().skip(15) {
        output.push(sut.push(ContentKind::Music, frame));
    }

    let samples = output
        .iter()
        .flat_map(|frame| resolve(frame).into_iter())
        .collect::<Vec<_>>();

    assert_eq!(
        &samples,
        &[
            0.0, 0.25, 1.0, 1.0, 1.0, 1.0, 0.25, 0.0, 0.0, 0.0, 0.0, 0.0, 0.0, 0.0, 0.0, 0.0,
            0.25, 1.0, 1.0, 1.0
        ]
    );

    let timestamps = output.iter().map(|frame| frame.pts).collect::<Vec<_>>();

    assert_eq!(timestamps, pts_seq(20));
}
