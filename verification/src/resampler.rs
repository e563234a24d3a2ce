//! Target parameters of a resampling stage.

use vstd::prelude::*;

use crate::error::{invalid_data_error, invalid_data_text, AudioError, AudioErrorView, Result};
use crate::consts::AVERROR_INVALIDDATA;
use crate::format::{is_planar_spec, AudioSample, SampleFormat};

verus! {

/// The target sample rate, channel count and sample format of a resampler.
///
/// Built with `new()` and the builder methods.
#[derive(Clone, Copy, Debug, PartialEq, Eq, Structural)]
pub struct ResampleOptions {
    pub target_sample_rate: i32,
    pub target_channels: i32,
    pub target_sample_fmt: SampleFormat,
}

impl Default for ResampleOptions {
    /// 44100 Hz, two channels, packed 32-bit float.
    fn default() -> (o: Self)
        ensures
            o.target_sample_rate == 44100,
            o.target_channels == 2,
            o.target_sample_fmt == SampleFormat::Flt,
    {
        ResampleOptions {
            target_sample_rate: 44100,
            target_channels: 2,
            target_sample_fmt: SampleFormat::Flt,
        }
    }
}

/// The message of a non-positive target sample rate.
pub open spec fn bad_rate_message() -> Seq<char> {
    "Target sample rate must be greater than 0"@
}

/// The message of a non-positive target channel count.
pub open spec fn bad_channels_message() -> Seq<char> {
    "Target channels must be greater than 0"@
}

impl ResampleOptions {
    /// The default options: 44100 Hz, stereo, 32-bit float.
    pub fn new() -> (o: Self)
        ensures
            o.target_sample_rate == 44100,
            o.target_channels == 2,
            o.target_sample_fmt == SampleFormat::Flt,
    {
        Self::default()
    }

    /// Checks the configuration: the sample rate first, then the channel count,
    /// must be positive.
    pub fn validate(&self) -> (r: Result<()>)
        ensures
            r is Ok <==> self.target_sample_rate > 0 && self.target_channels > 0,
            self.target_sample_rate <= 0 ==> (r matches Err(e) && e.view_error()
                == AudioErrorView::InvalidParameter(bad_rate_message())),
            self.target_sample_rate > 0 && self.target_channels <= 0 ==> (r matches Err(e)
                && e.view_error() == AudioErrorView::InvalidParameter(bad_channels_message())),
    {
        proof {
            reveal_strlit("Target sample rate must be greater than 0");
            reveal_strlit("Target channels must be greater than 0");
        }
        if self.target_sample_rate <= 0 {
            return Err(
                AudioError::InvalidParameter(
                    "Target sample rate must be greater than 0".to_owned(),
                ),
            );
        }
        if self.target_channels <= 0 {
            return Err(
                AudioError::InvalidParameter("Target channels must be greater than 0".to_owned()),
            );
        }
        Ok(())
    }

    /// Sets the target sample rate (in Hz).
    pub fn sample_rate(self, rate: i32) -> (o: Self)
        ensures
            o == (ResampleOptions { target_sample_rate: rate, ..self }),
    {
        ResampleOptions { target_sample_rate: rate, ..self }
    }

    /// Sets the target number of channels (1 for mono, 2 for stereo).
    pub fn channels(self, channels: i32) -> (o: Self)
        ensures
            o == (ResampleOptions { target_channels: channels, ..self }),
    {
        ResampleOptions { target_channels: channels, ..self }
    }

    /// Sets the target sample format to the one bound to `T`.
    pub fn format<T: AudioSample>(self) -> (o: Self)
        ensures
            o == (ResampleOptions { target_sample_fmt: T::FORMAT, ..self }),
    {
        ResampleOptions { target_sample_fmt: T::FORMAT, ..self }
    }
}

/// The error `validate` gives options that are not valid: the sample rate's
/// first, then the channel count's.
pub open spec fn validate_error(o: ResampleOptions) -> AudioErrorView {
    if o.target_sample_rate <= 0 {
        AudioErrorView::InvalidParameter(bad_rate_message())
    } else {
        AudioErrorView::InvalidParameter(bad_channels_message())
    }
}

/// Checks the target of a resampler before it is built: the options must be
/// valid (see `validate`), and the target format packed; a planar target is
/// refused with "invalid data".
pub fn check_resampler_target(options: &ResampleOptions) -> (r: Result<()>)
    ensures
        !(options.target_sample_rate > 0 && options.target_channels > 0) ==> (r matches Err(e)
            && e.view_error() == validate_error(*options)),
        options.target_sample_rate > 0 && options.target_channels > 0 && is_planar_spec(
            options.target_sample_fmt,
        ) ==> (r matches Err(e) && e.view_error() == AudioErrorView::FFmpeg(
            AVERROR_INVALIDDATA,
            invalid_data_text(),
        )),
        r is Ok <==> options.target_sample_rate > 0 && options.target_channels > 0
            && !is_planar_spec(options.target_sample_fmt),
{
    options.validate()?;
    if options.target_sample_fmt.is_planar() {
        return Err(invalid_data_error());
    }
    Ok(())
}

/// The decisions of one resampling step: a request for a sample type other
/// than the target's is refused with `FormatMismatch`; when the resampler
/// expects no output, nothing is produced (`(0, false)`); else the output
/// holds `converted` samples per channel for `channels` channels, and data
/// is ready when that count is positive.
pub fn process_step(
    requested: SampleFormat,
    target: SampleFormat,
    expected_out: i32,
    converted: usize,
    channels: usize,
) -> (r: Result<(usize, bool)>)
    requires
        requested == target && expected_out > 0 ==> converted * channels <= usize::MAX,
    ensures
        requested != target ==> (r matches Err(e) && e is FormatMismatch),
        requested == target && expected_out <= 0 ==> (r matches Ok(x) && x == (0usize, false)),
        requested == target && expected_out > 0 ==> (r matches Ok(x) && x.0 == converted
            * channels && x.1 == (converted * channels > 0)),
{
    if requested != target {
        return Err(AudioError::FormatMismatch);
    }
    if expected_out <= 0 {
        return Ok((0, false));
    }
    let count = converted * channels;
    Ok((count, count > 0))
}

} // verus!
