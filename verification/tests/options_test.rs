use ffmpeg_audio::layout::ChannelLayout;
use ffmpeg_audio::resampler::{check_resampler_target, process_step};
use ffmpeg_audio::{AudioError, ResampleOptions, SampleFormat};

#[test]
fn default_options() {
    let o = ResampleOptions::new();
    assert_eq!(o.target_sample_rate, 44100);
    assert_eq!(o.target_channels, 2);
    assert_eq!(o.target_sample_fmt, SampleFormat::Flt);
    assert_eq!(ResampleOptions::default(), o);
    assert!(o.validate().is_ok());
}

#[test]
fn builders_set_one_field_each() {
    let o = ResampleOptions::new().sample_rate(48000).channels(1).format::<i16>();
    assert_eq!(o.target_sample_rate, 48000);
    assert_eq!(o.target_channels, 1);
    assert_eq!(o.target_sample_fmt, SampleFormat::S16);
    assert_eq!(ResampleOptions::new().format::<u8>().target_sample_fmt, SampleFormat::U8);
    assert_eq!(ResampleOptions::new().format::<i32>().target_sample_fmt, SampleFormat::S32);
}

#[test]
fn validation_errors() {
    match ResampleOptions::new().sample_rate(0).channels(0).validate() {
        Err(AudioError::InvalidParameter(m)) => {
            assert_eq!(m, "Target sample rate must be greater than 0")
        }
        other => panic!("unexpected {other:?}"),
    }
    match ResampleOptions::new().channels(-1).validate() {
        Err(AudioError::InvalidParameter(m)) => assert_eq!(m, "Target channels must be greater than 0"),
        other => panic!("unexpected {other:?}"),
    }
}

#[test]
fn sample_format_names() {
    assert_eq!(SampleFormat::S16.name(), "s16");
    assert_eq!(SampleFormat::FltP.name(), "fltp");
    assert_eq!(SampleFormat::Dbl.name(), "dbl");
}

#[test]
fn channel_layouts() {
    let l = ChannelLayout::from_default(6);
    assert_eq!(l.channels(), 6);
    assert!(l.is_identical_to(&ChannelLayout::from_existing(&l)));
    assert!(!l.is_identical_to(&ChannelLayout::from_default(2)));
}


#[test]
fn resampler_targets_are_checked_like_validate() {
    let bad = ResampleOptions::new().sample_rate(0);
    match (check_resampler_target(&bad), bad.validate()) {
        (Err(AudioError::InvalidParameter(a)), Err(AudioError::InvalidParameter(b))) => assert_eq!(a, b),
        _ => panic!("expected the error of validate"),
    }
    let planar = ResampleOptions { target_sample_fmt: SampleFormat::FltP, ..ResampleOptions::new() };
    match check_resampler_target(&planar) {
        Err(AudioError::FFmpeg(code, msg)) => {
            assert_eq!(code, -0x4144_4E49);
            assert_eq!(msg, "Invalid data found when processing input");
        }
        _ => panic!("expected invalid data"),
    }
    assert!(check_resampler_target(&ResampleOptions::new()).is_ok());
}

#[test]
fn resampling_step_decisions() {
    assert!(matches!(process_step(SampleFormat::S16, SampleFormat::Flt, 10, 5, 2), Err(AudioError::FormatMismatch)));
    assert_eq!(process_step(SampleFormat::Flt, SampleFormat::Flt, 0, 5, 2).unwrap(), (0, false));
    assert_eq!(process_step(SampleFormat::Flt, SampleFormat::Flt, 10, 5, 2).unwrap(), (10, true));
    assert_eq!(process_step(SampleFormat::Flt, SampleFormat::Flt, 10, 0, 2).unwrap(), (0, false));
}
