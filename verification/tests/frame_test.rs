use std::time::Duration;

use ffmpeg_audio::frame::{AudioFrame, RawFrame, AV_NOPTS_VALUE};
use ffmpeg_audio::time::{Rational, TimeBase};

#[test]
fn pts_is_relative_to_the_timeline_origin() {
    let mut raw_frame = RawFrame {
        nb_samples: 1_024,
        pts: 10_000_000,
        sample_rate: 48_000,
    };

    let time_base = TimeBase::try_new(Rational {
        num: 1,
        den: 1_000_000,
    })
    .unwrap();

    let frame = AudioFrame::new(raw_frame, time_base)
        .with_timeline_origin(10_000_000)
        .with_offset(48);

    assert_eq!(frame.pts_micros(), Some(1_000));
    assert_eq!(frame.pts(), Some(Duration::from_micros(1_000)));

    raw_frame.pts = AV_NOPTS_VALUE;
    let no_pts_frame = AudioFrame::new(raw_frame, time_base).with_timeline_origin(-1);
    assert_eq!(no_pts_frame.pts_micros(), None);
    assert_eq!(no_pts_frame.pts(), None);
}

#[test]
fn samples_subtract_the_offset_and_saturate() {
    let tb = TimeBase::try_new(Rational { num: 1, den: 48_000 }).unwrap();
    let raw = RawFrame { nb_samples: 1024, pts: 0, sample_rate: 48_000 };
    assert_eq!(AudioFrame::new(raw, tb).samples(), 1024);
    assert_eq!(AudioFrame::new(raw, tb).with_offset(100).samples(), 924);
    assert_eq!(AudioFrame::new(raw, tb).with_offset(5000).samples(), 0);
    assert_eq!(AudioFrame::new(raw, tb).with_offset(100).offset(), 100);
    assert_eq!(AudioFrame::new(raw, tb).frame_sample_rate(), 48_000);
}

#[test]
fn pts_counts_in_the_time_base() {
    let tb = TimeBase::try_new(Rational { num: 1, den: 48_000 }).unwrap();
    let raw = RawFrame { nb_samples: 1024, pts: 96_000, sample_rate: 48_000 };
    let f = AudioFrame::new(raw, tb);
    assert_eq!(f.pts_micros(), Some(2_000_000));
    assert_eq!(f.pts(), Some(Duration::from_secs(2)));
}

#[test]
fn times_before_the_origin() {
    let tb = TimeBase::try_new(Rational { num: 1, den: 1000 }).unwrap();
    let raw = RawFrame { nb_samples: 10, pts: 5, sample_rate: 1000 };
    let f = AudioFrame::new(raw, tb).with_timeline_origin(10);
    // five ticks before the origin
    assert_eq!(f.pts_micros(), Some(-5000));
    // a duration cannot be negative: it is zero
    assert_eq!(f.pts(), Some(Duration::ZERO));
}

#[test]
fn offset_time_is_added_in_whole_units() {
    let tb = TimeBase::try_new(Rational { num: 1, den: 44_100 }).unwrap();
    let raw = RawFrame { nb_samples: 1024, pts: 0, sample_rate: 44_100 };
    let f = AudioFrame::new(raw, tb).with_offset(1);
    // 1 / 44100 s = 22.675... us = 22675.73... ns, rounded to the nearest
    assert_eq!(f.pts_micros(), Some(22));
    assert_eq!(f.pts(), Some(Duration::from_nanos(22_676)));
}

#[test]
fn saturating_relative_timestamp() {
    let tb = TimeBase::try_new(Rational { num: 1, den: 1_000_000 }).unwrap();
    let raw = RawFrame { nb_samples: 1, pts: i64::MAX, sample_rate: 0 };
    let f = AudioFrame::new(raw, tb).with_timeline_origin(-10);
    assert_eq!(f.pts_micros(), Some(i64::MAX));
}

#[test]
fn an_offset_moves_the_timestamp_by_its_playing_time() {
    let tb = TimeBase::try_new(Rational { num: 1, den: 44100 }).unwrap();
    let raw = RawFrame { nb_samples: 1024, pts: 44100, sample_rate: 44100 };
    let base = AudioFrame::new(raw, tb).pts().unwrap();
    assert_eq!(base, Duration::from_secs(1));
    // 441 samples at 44100 Hz: 10 ms
    let shifted = AudioFrame::new(raw, tb).with_offset(441).pts().unwrap();
    assert_eq!(shifted, base + Duration::from_millis(10));
    // 1 sample: 22675.7 ns, rounded to the nearest
    let one = AudioFrame::new(raw, tb).with_offset(1).pts().unwrap();
    assert_eq!(one, base + Duration::from_nanos(22_676));
}
