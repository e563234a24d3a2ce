//! Decoded audio frames and their presentation timestamps.

use std::time::Duration;
use vstd::prelude::*;

use crate::time::{duration_from_nanos, duration_nanos, fits_i64, TimeBase};

verus! {

/// The timestamp value that marks "no presentation timestamp"
/// (FFmpeg's `AV_NOPTS_VALUE`).
pub const AV_NOPTS_VALUE: i64 = i64::MIN;

/// What a decoder reports of one decoded frame.
#[derive(Clone, Copy, Debug, PartialEq, Eq)]
pub struct RawFrame {
    /// Samples per channel in the frame.
    pub nb_samples: i32,
    /// Presentation timestamp in stream ticks, or `AV_NOPTS_VALUE`.
    pub pts: i64,
    /// Samples per second.
    pub sample_rate: i32,
}

/// `a - b` clamped to the range of `i64`.
pub open spec fn saturating_sub_i64(a: int, b: int) -> int {
    if a - b > i64::MAX {
        i64::MAX as int
    } else if a - b < i64::MIN {
        i64::MIN as int
    } else {
        a - b
    }
}

/// `a + b` clamped to the range of `i64`.
pub open spec fn saturating_add_i64(a: int, b: int) -> int {
    saturating_sub_i64(a, -b)
}

fn saturating_sub(a: i64, b: i64) -> (r: i64)
    ensures
        r == saturating_sub_i64(a as int, b as int),
{
    let d: i128 = a as i128 - b as i128;
    if d > i64::MAX as i128 {
        i64::MAX
    } else if d < i64::MIN as i128 {
        i64::MIN
    } else {
        d as i64
    }
}

/// A decoded audio frame: what the decoder reported, the stream time base,
/// the stream timestamp taken as time zero, and a number of leading samples
/// to skip.
#[derive(Clone, Copy, Debug)]
pub struct AudioFrame {
    raw: RawFrame,
    time_base: TimeBase,
    timeline_origin_pts: i64,
    sample_offset: usize,
}

impl AudioFrame {
    /// What the decoder reported of this frame.
    pub closed spec fn raw(self) -> RawFrame {
        self.raw
    }

    /// The stream time base the frame's timestamp counts in.
    pub closed spec fn time_base(self) -> TimeBase {
        self.time_base
    }

    /// The stream timestamp that stands for time zero.
    pub closed spec fn timeline_origin(self) -> int {
        self.timeline_origin_pts as int
    }

    /// The number of leading samples skipped.
    pub closed spec fn offset_spec(self) -> int {
        self.sample_offset as int
    }

    /// The samples per channel left after the offset.
    pub open spec fn samples_spec(self) -> int {
        let raw = (self.raw().nb_samples as usize) as int;
        if raw > self.offset_spec() {
            raw - self.offset_spec()
        } else {
            0
        }
    }

    /// Whether the timestamp arithmetic of this frame stays within `i64`.
    pub open spec fn offset_fits(self) -> bool {
        self.offset_spec() * 1_000_000 <= i64::MAX
    }

    /// The time of the skipped leading samples in whole microseconds.
    pub open spec fn offset_micros(self) -> int {
        if self.offset_spec() > 0 && self.raw().sample_rate > 0 {
            (self.offset_spec() * 1_000_000) / (self.raw().sample_rate as int)
        } else {
            0
        }
    }

    /// The time of the skipped leading samples in nanoseconds, rounded to the
    /// nearest (halfway up).
    pub open spec fn offset_nanos(self) -> int {
        if self.offset_spec() > 0 && self.raw().sample_rate > 0 {
            (self.offset_spec() * 1_000_000_000 + (self.raw().sample_rate as int) / 2) / (
            self.raw().sample_rate as int)
        } else {
            0
        }
    }

    /// The frame's timestamp in ticks from the timeline origin.
    pub open spec fn relative_pts(self) -> int {
        saturating_sub_i64(self.raw().pts as int, self.timeline_origin())
    }

    /// `pts_micros`: the frame time in microseconds from the timeline
    /// origin, moved forward by the skipped samples.
    pub open spec fn pts_micros_spec(self) -> Option<int> {
        if self.raw().pts == AV_NOPTS_VALUE {
            None
        } else if !fits_i64(self.time_base().micros(self.relative_pts())) {
            None
        } else {
            Some(
                saturating_add_i64(
                    self.time_base().micros(self.relative_pts()),
                    self.offset_micros(),
                ),
            )
        }
    }

    /// `pts`: the frame time in nanoseconds from the timeline origin (a time
    /// before the origin counts as zero), moved forward by the skipped samples.
    pub open spec fn pts_nanos_spec(self) -> Option<int> {
        if self.raw().pts == AV_NOPTS_VALUE {
            None
        } else if !fits_i64(self.time_base().micros(self.relative_pts())) {
            None
        } else {
            let us = self.time_base().micros(self.relative_pts());
            Some((if us > 0 {
                us
            } else {
                0
            }) * 1000 + self.offset_nanos())
        }
    }

    /// A frame with no skipped samples has a timestamp of at most
    /// `i64::MAX` microseconds, which a `Duration` holds.
    pub proof fn lemma_pts_in_range(self)
        requires
            self.offset_spec() == 0,
        ensures
            self.pts_nanos_spec() matches Some(n) ==> 0 <= n <= i64::MAX * 1000 && n
                / 1_000_000_000 <= u64::MAX,
    {
    }

    /// Skipping `k` leading samples moves the timestamp forward by their
    /// playing time: `k` samples at the frame's sample rate, in nanoseconds
    /// rounded to the nearest (`g` is `f` with the offset `k`).
    pub proof fn lemma_offset_shifts_pts(f: AudioFrame, g: AudioFrame)
        requires
            f.offset_spec() == 0,
            g.raw() == f.raw(),
            g.time_base() == f.time_base(),
            g.timeline_origin() == f.timeline_origin(),
        ensures
            f.pts_nanos_spec() matches Some(n) ==> g.pts_nanos_spec() == Some(
                n + g.offset_nanos(),
            ),
            f.pts_nanos_spec() is None ==> g.pts_nanos_spec() is None,
            g.offset_spec() > 0 && g.raw().sample_rate > 0 ==> g.offset_nanos() == (g.offset_spec()
                * 1_000_000_000 + (g.raw().sample_rate as int) / 2) / (g.raw().sample_rate as int),
    {
    }

    /// The frame `new` makes.
    pub closed spec fn new_spec(raw: RawFrame, time_base: TimeBase) -> AudioFrame {
        AudioFrame { raw, time_base, timeline_origin_pts: 0, sample_offset: 0 }
    }

    /// Wraps what the decoder reported of a frame, with time zero at stream
    /// timestamp zero and no skipped samples.
    pub fn new(raw: RawFrame, time_base: TimeBase) -> (f: AudioFrame)
        ensures
            f.raw() == raw,
            f.time_base() == time_base,
            f.timeline_origin() == 0,
            f.offset_spec() == 0,
            f == Self::new_spec(raw, time_base),
    {
        AudioFrame { raw, time_base, timeline_origin_pts: 0, sample_offset: 0 }
    }

    /// Skips `offset` leading samples (for sample-accurate seeking).
    pub fn with_offset(self, offset: usize) -> (f: AudioFrame)
        ensures
            f.raw() == self.raw(),
            f.time_base() == self.time_base(),
            f.timeline_origin() == self.timeline_origin(),
            f.offset_spec() == offset,
    {
        AudioFrame { sample_offset: offset, ..self }
    }

    /// Takes the stream timestamp `origin_pts` as time zero.
    pub fn with_timeline_origin(self, origin_pts: i64) -> (f: AudioFrame)
        ensures
            f.raw() == self.raw(),
            f.time_base() == self.time_base(),
            f.timeline_origin() == origin_pts,
            f.offset_spec() == self.offset_spec(),
    {
        AudioFrame { timeline_origin_pts: origin_pts, ..self }
    }

    /// What the decoder reported of this frame.
    pub fn as_raw(&self) -> (r: RawFrame)
        ensures
            r == self.raw(),
    {
        self.raw
    }

    /// The number of samples per channel available after the offset.
    ///
    /// For example, a frame of 1024 samples with an offset of 100 has 924.
    pub fn samples(&self) -> (n: usize)
        ensures
            n == self.samples_spec(),
    {
        let raw_samples = self.raw.nb_samples as usize;
        raw_samples.saturating_sub(self.sample_offset)
    }

    /// The number of leading samples skipped.
    pub fn offset(&self) -> (n: usize)
        ensures
            n == self.offset_spec(),
    {
        self.sample_offset
    }

    /// The sample rate of this frame.
    pub fn frame_sample_rate(&self) -> (r: i32)
        ensures
            r == self.raw().sample_rate,
    {
        self.raw.sample_rate
    }

    /// The frame time in microseconds from the timeline origin, if the frame
    /// has a timestamp.
    pub fn pts_micros(&self) -> (r: Option<i64>)
        requires
            self.offset_fits(),
        ensures
            r matches Some(us) ==> self.pts_micros_spec() == Some(us as int),
            r is None ==> self.pts_micros_spec() is None,
    {
        if self.raw.pts == AV_NOPTS_VALUE {
            return None;
        }
        let relative_pts = saturating_sub(self.raw.pts, self.timeline_origin_pts);
        match self.time_base.calc_micros(relative_pts) {
            Some(micros) => {
                let sample_rate = self.raw.sample_rate;
                if self.sample_offset > 0 && sample_rate > 0 {
                    let offset_micros: i64 = (self.sample_offset as i64 * 1_000_000) / (
                    sample_rate as i64);
                    Some(saturating_sub(micros, -offset_micros))
                } else {
                    Some(micros)
                }
            },
            None => None,
        }
    }

    /// The presentation time of this frame from the timeline origin, moved
    /// forward by the skipped samples; `None` without a timestamp.
    pub fn pts(&self) -> (r: Option<Duration>)
        requires
            self.pts_nanos_spec() matches Some(n) ==> n / 1_000_000_000 <= u64::MAX,
        ensures
            r is Some <==> self.pts_nanos_spec() is Some,
            r matches Some(d) ==> self.pts_nanos_spec() == Some(duration_nanos(d) as int),
    {
        if self.raw.pts == AV_NOPTS_VALUE {
            return None;
        }
        let relative_pts = saturating_sub(self.raw.pts, self.timeline_origin_pts);
        match self.time_base.calc_micros(relative_pts) {
            Some(micros) => {
                let base: u128 = if micros > 0 {
                    micros as u128 * 1000
                } else {
                    0
                };
                let sample_rate = self.raw.sample_rate;
                let extra: u128 = if self.sample_offset > 0 && sample_rate > 0 {
                    (self.sample_offset as u128 * 1_000_000_000 + sample_rate as u128 / 2) / (
                    sample_rate as u128)
                } else {
                    0
                };
                assert(self.offset_spec() * 1_000_000_000 <= 0xffff_ffff_ffff_ffff * 1_000_000_000)
                    by (nonlinear_arith)
                    requires
                        0 <= self.offset_spec() <= 0xffff_ffff_ffff_ffff,
                ;
                assert(extra <= self.offset_spec() * 1_000_000_000 + 0x4000_0000)
                    by (nonlinear_arith)
                    requires
                        extra == 0 || (sample_rate >= 1 && extra == (self.offset_spec()
                            * 1_000_000_000 + sample_rate / 2) / (sample_rate as int)),
                        self.offset_spec() >= 0,
                        sample_rate <= 0x7fff_ffff,
                ;
                Some(duration_from_nanos(base + extra))
            },
            None => None,
        }
    }
}

/// With time zero at stream timestamp zero and no skipped samples, a
/// frame's timestamp is its stream timestamp counted in the stream's time
/// base: `pts * num / den` seconds, in whole microseconds rounded to the
/// nearest (none when they do not fit in `i64`), whatever the frame's sample
/// rate. (A time base's parts are positive, as the type keeps them.)
pub proof fn lemma_pts_counts_in_the_time_base(f: AudioFrame)
    requires
        f.timeline_origin() == 0,
        f.offset_spec() == 0,
        f.raw().pts != AV_NOPTS_VALUE,
        f.raw().pts >= 0,
        f.time_base().num() > 0,
        f.time_base().den() > 0,
    ensures
        ({
            let p = f.raw().pts as int;
            let us = (p * (f.time_base().num() * 1_000_000) + f.time_base().den() / 2)
                / f.time_base().den();
            &&& us <= i64::MAX ==> f.pts_nanos_spec() == Some(us * 1000)
            &&& us > i64::MAX ==> f.pts_nanos_spec() is None
        }),
{
    let p = f.raw().pts as int;
    let b = f.time_base().num() * 1_000_000;
    let c = f.time_base().den();
    assert(saturating_sub_i64(p, 0) == p);
    assert((p * b + c / 2) / c >= 0) by (nonlinear_arith)
        requires
            p >= 0,
            b >= 0,
            c > 0,
    ;
}

/// A frame's timestamp does not depend on its sample rate when no samples
/// are skipped: two frames that differ only in it have the same timestamp.
pub proof fn lemma_pts_ignores_the_sample_rate(f: AudioFrame, g: AudioFrame)
    requires
        f.offset_spec() == 0,
        g.offset_spec() == 0,
        f.time_base() == g.time_base(),
        f.timeline_origin() == g.timeline_origin(),
        f.raw().pts == g.raw().pts,
    ensures
        f.pts_nanos_spec() == g.pts_nanos_spec(),
        f.pts_micros_spec() == g.pts_micros_spec(),
{
}

} // verus!
