//! The looping ad track.

use restreamer::frame::AudioFrame;
use restreamer::mixer_ads::AdsBox;
use restreamer::pts::TimeStamp;

fn frames(values: &[f32]) -> Vec<AudioFrame> {
    values
        .iter()
        .map(|v| AudioFrame {
            samples: vec![v.to_bits()],
            rate: 44_100,
            pts: TimeStamp { ticks: 0, rate: 44_100 },
        })
        .collect()
}

#[test]
fn test_track_loops_silently() {
    let mut ads = AdsBox::new(frames(&[0.1, 0.2]));
    assert_eq!(ads.len(), 2);
    assert_eq!(ads.left(), 2);

    assert_eq!(ads.next().unwrap().samples, vec![0.1_f32.to_bits()]);
    assert_eq!(ads.left(), 1);
    assert_eq!(ads.next().unwrap().samples, vec![0.2_f32.to_bits()]);
    assert_eq!(ads.left(), 0);

    // exhausted: the track starts over instead of erring
    assert_eq!(ads.next().unwrap().samples, vec![0.1_f32.to_bits()]);
    assert_eq!(ads.left(), 1);
}

#[test]
fn test_reset_rewinds_the_track() {
    let mut ads = AdsBox::new(frames(&[0.1, 0.2, 0.3]));
    ads.next();
    ads.next();
    ads.reset();
    assert_eq!(ads.left(), 3);
    assert_eq!(ads.next().unwrap().samples, vec![0.1_f32.to_bits()]);
}

#[test]
fn test_empty_track_yields_nothing() {
    let mut ads = AdsBox::new(frames(&[]));
    assert_eq!(ads.len(), 0);
    assert!(ads.next().is_none());
    assert!(ads.next().is_none());
}
