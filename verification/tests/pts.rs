//! The timestamp sequencer: strictly increasing, evenly spaced output
//! timing, resynchronization of the frame duration.

use restreamer::frame::AudioFrame;
use restreamer::pts::{Pts, TimeStamp};

fn frame_of(samples: usize, rate: u32) -> AudioFrame {
    AudioFrame {
        samples: vec![0u32; samples],
        rate,
        pts: TimeStamp { ticks: 99, rate },
    }
}

#[test]
fn test_next_spaces_timestamps_by_one_frame() {
    let mut pts = Pts::new(2048, 48_000);
    assert_eq!(pts.next(), TimeStamp { ticks: 2048, rate: 48_000 });
    assert_eq!(pts.next(), TimeStamp { ticks: 4096, rate: 48_000 });
    assert_eq!(pts.next(), TimeStamp { ticks: 6144, rate: 48_000 });
}

#[test]
fn test_from_frame_takes_shape_and_rate() {
    let mut pts = Pts::from_frame(&frame_of(576, 44_100));
    assert_eq!(pts.next(), TimeStamp { ticks: 576, rate: 44_100 });
    assert_eq!(pts.next(), TimeStamp { ticks: 1152, rate: 44_100 });
}

#[test]
fn test_update_resynchronizes_duration_only() {
    let mut pts = Pts::new(100, 48_000);
    assert_eq!(pts.next(), TimeStamp { ticks: 100, rate: 48_000 });

    // a new frame size changes the spacing, never the rate or continuity
    pts.update(&frame_of(250, 8_000));
    assert_eq!(pts.next(), TimeStamp { ticks: 350, rate: 48_000 });
    assert_eq!(pts.next(), TimeStamp { ticks: 600, rate: 48_000 });
}
