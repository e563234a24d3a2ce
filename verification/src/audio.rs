//! The audio reader: what is known of a stream once FFmpeg has opened it,
//! and the steps of its pulls, seeks and scans.

use std::time::Duration;
use vstd::prelude::*;

use crate::error::{invalid_data_error, invalid_data_text, AudioError, AudioErrorView, Result};
use crate::frame::AV_NOPTS_VALUE;
use crate::reader::{
    pull_step, seek_demuxer_step, seek_pull_step, AudioPipeline, DurationScanner, PlaybackState,
    PullAction, PullEvent, ScanAction, ScanRun, SeekAction, SeekEngine, SeekRun,
};
use crate::time::{duration_nanos, fits_i64, Rational, TimeBase};

verus! {

/// What is known of the source stream.
#[derive(Clone, Debug)]
pub struct SourceAudioInfo {
    /// Samples per second.
    pub sample_rate: i32,
    /// Number of channels.
    pub channels: i32,
    /// The average bit rate of the encoded data (in bits per second).
    pub bit_rate: i64,
    /// Audio sample format.
    pub sample_fmt: Option<String>,
    /// The name of the codec.
    pub codec_name: Option<String>,
    /// The number of valid bits in each sample; can be 0.
    pub bits_per_sample: i32,
}

/// A picture attached to an audio file, with its MIME type when known.
#[derive(Clone, Debug)]
pub struct AudioCover {
    pub data: Vec<u8>,
    pub mime_type: Option<String>,
}

/// What FFmpeg tells of a stream it opened: the stream's time base and
/// length (in ticks, `AV_NOPTS_VALUE` when unknown), the decoder's rate and
/// channels, the bit rates of the codec parameters and of the container, the
/// bits per raw and per coded sample, the names of the sample format and the
/// codec, the tags, and the attached picture.
pub struct StreamProbe {
    pub time_base: Rational,
    pub duration: i64,
    pub sample_rate: i32,
    pub channels: i32,
    pub codec_bit_rate: i64,
    pub container_bit_rate: i64,
    pub bits_per_raw_sample: i32,
    pub bits_per_coded_sample: i32,
    pub sample_fmt: Option<String>,
    pub codec_name: Option<String>,
    pub metadata: Vec<(String, String)>,
    pub cover: Option<AudioCover>,
}

/// The text of an optional string.
pub open spec fn opt_view(s: Option<String>) -> Option<Seq<char>> {
    match s {
        Some(x) => Some(x@),
        None => None,
    }
}

/// The text of each pair of strings.
pub open spec fn pairs_view(v: Seq<(String, String)>) -> Seq<(Seq<char>, Seq<char>)> {
    v.map_values(|p: (String, String)| (p.0@, p.1@))
}

/// The bytes and MIME type of an optional picture.
pub open spec fn cover_view(c: Option<AudioCover>) -> Option<(Seq<u8>, Option<Seq<char>>)> {
    match c {
        Some(x) => Some((x.data@, opt_view(x.mime_type))),
        None => None,
    }
}

/// The source information of a probed stream: its rate and channels; the
/// codec's bit rate, else (when it gives none) the container's; the names;
/// the bits per raw sample, else the bits per coded sample.
pub open spec fn source_info_matches(si: SourceAudioInfo, p: StreamProbe) -> bool {
    &&& si.sample_rate == p.sample_rate
    &&& si.channels == p.channels
    &&& si.bit_rate == (if p.codec_bit_rate > 0 {
        p.codec_bit_rate
    } else {
        p.container_bit_rate
    })
    &&& opt_view(si.sample_fmt) == opt_view(p.sample_fmt)
    &&& opt_view(si.codec_name) == opt_view(p.codec_name)
    &&& si.bits_per_sample == (if p.bits_per_raw_sample > 0 {
        p.bits_per_raw_sample
    } else {
        p.bits_per_coded_sample
    })
}

/// Copies an optional string.
fn copy_opt(s: &Option<String>) -> (r: Option<String>)
    ensures
        opt_view(r) == opt_view(*s),
{
    match s {
        Some(x) => Some(x.clone()),
        None => None,
    }
}

/// Copies a list of string pairs.
fn copy_pairs(v: &Vec<(String, String)>) -> (m: Vec<(String, String)>)
    ensures
        pairs_view(m@) == pairs_view(v@),
{
    let mut m: Vec<(String, String)> = Vec::new();
    let mut i: usize = 0;
    while i < v.len()
        invariant
            i <= v@.len(),
            pairs_view(m@) == pairs_view(v@.take(i as int)),
        decreases v@.len() - i,
    {
        let ghost old_m = m@;
        let key = v[i].0.clone();
        let value = v[i].1.clone();
        m.push((key, value));
        proof {
            assert(m@ == old_m.push((key, value)));
            assert(pairs_view(m@) =~= pairs_view(old_m).push((key@, value@)));
            assert(pairs_view(v@.take(i + 1)) =~= pairs_view(v@.take(i as int)).push(
                (v@[i as int].0@, v@[i as int].1@),
            ));
        }
        i = i + 1;
    }
    proof {
        assert(v@.take(i as int) =~= v@);
    }
    m
}

/// Copies an optional picture.
fn copy_cover(c: &Option<AudioCover>) -> (r: Option<AudioCover>)
    ensures
        cover_view(r) == cover_view(*c),
{
    match c {
        Some(x) => {
            let mut data: Vec<u8> = Vec::new();
            let mut i: usize = 0;
            while i < x.data.len()
                invariant
                    i <= x.data@.len(),
                    data@ == x.data@.take(i as int),
                decreases x.data@.len() - i,
            {
                data.push(x.data[i]);
                i = i + 1;
                proof {
                    assert(data@ =~= x.data@.take(i as int));
                }
            }
            proof {
                assert(x.data@.take(i as int) =~= x.data@);
            }
            Some(AudioCover { data, mime_type: copy_opt(&x.mime_type) })
        },
        None => None,
    }
}

/// Decodes an audio stream that FFmpeg opened: keeps what is known of it and
/// the playback state, and takes the steps of its pulls, seeks and scans.
pub struct AudioReader {
    state: PlaybackState,
    source_info: SourceAudioInfo,
    duration_ticks: i64,
    tags: Vec<(String, String)>,
    cover: Option<AudioCover>,
}

impl AudioReader {
    /// What every reader keeps: the playback state's invariant.
    #[verifier::type_invariant]
    spec fn inv(self) -> bool {
        self.state.inv()
    }

    /// The playback state.
    pub closed spec fn state_view(self) -> PlaybackState {
        self.state
    }

    /// The source information.
    pub closed spec fn info_view(self) -> SourceAudioInfo {
        self.source_info
    }

    /// The stream's length in ticks, `AV_NOPTS_VALUE` when unknown.
    pub closed spec fn duration_ticks(self) -> i64 {
        self.duration_ticks
    }

    /// The tags of the stream, as text.
    pub closed spec fn tags_view(self) -> Seq<(Seq<char>, Seq<char>)> {
        pairs_view(self.tags@)
    }

    /// The attached picture.
    pub closed spec fn cover_view(self) -> Option<(Seq<u8>, Option<Seq<char>>)> {
        cover_view(self.cover)
    }

    /// Takes what FFmpeg told of an opened stream. Fails with "invalid data"
    /// when the stream's time base is not positive.
    pub fn new(probe: StreamProbe) -> (r: Result<AudioReader>)
        ensures
            !(probe.time_base.num > 0 && probe.time_base.den > 0) ==> (r matches Err(e)
                && e.view_error() == AudioErrorView::FFmpeg(
                crate::consts::AVERROR_INVALIDDATA,
                invalid_data_text(),
            )),
            probe.time_base.num > 0 && probe.time_base.den > 0 ==> (r matches Ok(reader) && {
                &&& reader.state_view().time_base.num() == probe.time_base.num
                &&& reader.state_view().time_base.den() == probe.time_base.den
                &&& reader.state_view().current_pts is None
                &&& !reader.state_view().is_exhausted
                &&& !reader.state_view().has_buffered_seek_frame
                &&& source_info_matches(reader.info_view(), probe)
                &&& reader.duration_ticks() == probe.duration
                &&& reader.tags_view() == pairs_view(probe.metadata@)
                &&& reader.cover_view() == cover_view(probe.cover)
            }),
    {
        let time_base = match TimeBase::try_new(probe.time_base) {
            Some(tb) => tb,
            None => {
                return Err(invalid_data_error());
            },
        };
        let bit_rate = if probe.codec_bit_rate > 0 {
            probe.codec_bit_rate
        } else {
            probe.container_bit_rate
        };
        let bits_per_sample = if probe.bits_per_raw_sample > 0 {
            probe.bits_per_raw_sample
        } else {
            probe.bits_per_coded_sample
        };
        let source_info = SourceAudioInfo {
            sample_rate: probe.sample_rate,
            channels: probe.channels,
            bit_rate,
            sample_fmt: copy_opt(&probe.sample_fmt),
            codec_name: copy_opt(&probe.codec_name),
            bits_per_sample,
        };
        let tags = copy_pairs(&probe.metadata);
        let cover = copy_cover(&probe.cover);
        Ok(
            AudioReader {
                state: PlaybackState::new(time_base),
                source_info,
                duration_ticks: probe.duration,
                tags,
                cover,
            },
        )
    }

    /// The time base of the stream.
    pub fn time_base(&self) -> (tb: TimeBase)
        ensures
            tb == self.state_view().time_base,
    {
        self.state.time_base
    }

    /// Whether a seek left a decoded frame for the next pull (the decoder's
    /// current frame).
    pub fn has_buffered_seek_frame(&self) -> (b: bool)
        ensures
            b == self.state_view().has_buffered_seek_frame,
    {
        self.state.has_buffered_seek_frame
    }

    /// One step of pulling the next frame: the frame a seek left, else the
    /// frame the decoder gives, fed with packets as it needs them; `None` at
    /// the end of the stream (see [`pull_step`]).
    pub fn receive_frame(&mut self, event: PullEvent) -> (a: PullAction)
        ensures
            pull_step(old(self).state_view(), event, final(self).state_view(), a),
            final(self).info_view() == old(self).info_view(),
            final(self).duration_ticks() == old(self).duration_ticks(),
            final(self).tags_view() == old(self).tags_view(),
            final(self).cover_view() == old(self).cover_view(),
    {
        proof {
            use_type_invariant(&*self);
        }
        let mut state = self.state;
        let a = AudioPipeline::receive_frame(&mut state, event);
        self.state = state;
        a
    }

    /// The timestamp of the frame most recently read; `None` before any frame
    /// and right after a seek.
    pub fn current_playback_time(&self) -> (t: Option<Duration>)
        ensures
            t == self.state_view().current_pts,
    {
        self.state.current_pts
    }

    /// What is known of the source stream.
    pub fn source_info(&self) -> (si: &SourceAudioInfo)
        ensures
            *si == self.info_view(),
    {
        &self.source_info
    }

    /// The tags of the stream, in the order FFmpeg gave them.
    pub fn metadata(&self) -> (m: Vec<(String, String)>)
        ensures
            pairs_view(m@) == self.tags_view(),
    {
        copy_pairs(&self.tags)
    }

    /// The length of the stream: its length in ticks, in whole microseconds
    /// (rounded to the nearest, none below zero); `None` when it is unknown
    /// or its microseconds do not fit in `i64`.
    pub fn duration(&self) -> (d: Option<Duration>)
        ensures
            self.duration_ticks() == AV_NOPTS_VALUE ==> d is None,
            self.duration_ticks() != AV_NOPTS_VALUE ==> {
                let us = self.state_view().time_base.micros(self.duration_ticks() as int);
                &&& d is Some <==> fits_i64(us)
                &&& d matches Some(x) ==> duration_nanos(x) == (if us > 0 {
                    us
                } else {
                    0
                }) * 1000
            },
    {
        if self.duration_ticks == AV_NOPTS_VALUE {
            None
        } else {
            self.state.time_base.calc_duration(self.duration_ticks)
        }
    }

    /// The picture attached to the stream, if it has one.
    pub fn cover(&self) -> (c: Option<AudioCover>)
        ensures
            cover_view(c) == self.cover_view(),
    {
        copy_cover(&self.cover)
    }

    /// Starts a seek to `target`, counting frame lengths at the source's
    /// sample rate: the demuxer seeks, then frames are dropped until one
    /// reaches the target (see [`SeekEngine::seek_to`]).
    pub fn seek(&self, target: Duration) -> (run: SeekRun)
        ensures
            run.target_micros() == duration_nanos(target) / 1000,
            run.rate() == self.info_view().sample_rate,
    {
        proof {
            use_type_invariant(self);
        }
        SeekEngine::seek_to(&self.state, &self.source_info, target)
    }

    /// The step of the seek `run` after the demuxer's seek (see
    /// [`seek_demuxer_step`]).
    pub fn seek_on_demuxer(&mut self, run: &SeekRun, r: Result<()>) -> (a: SeekAction)
        ensures
            seek_demuxer_step(old(self).state_view(), r, final(self).state_view(), a),
            final(self).info_view() == old(self).info_view(),
            final(self).duration_ticks() == old(self).duration_ticks(),
            final(self).tags_view() == old(self).tags_view(),
            final(self).cover_view() == old(self).cover_view(),
    {
        proof {
            use_type_invariant(&*self);
        }
        let mut state = self.state;
        let a = run.on_demuxer_seek(&mut state, r);
        self.state = state;
        a
    }

    /// The step of the seek `run` after a pull (see [`seek_pull_step`]).
    pub fn seek_on_pull(&mut self, run: &SeekRun, r: Result<Option<crate::frame::AudioFrame>>) -> (a:
        SeekAction)
        requires
            r matches Ok(Some(f)) ==> (f.pts_nanos_spec() matches Some(n) ==> n / 1_000_000_000
                <= u64::MAX),
        ensures
            seek_pull_step(*run, old(self).state_view(), r, final(self).state_view(), a),
            final(self).info_view() == old(self).info_view(),
            final(self).duration_ticks() == old(self).duration_ticks(),
            final(self).tags_view() == old(self).tags_view(),
            final(self).cover_view() == old(self).cover_view(),
    {
        proof {
            use_type_invariant(&*self);
        }
        let mut state = self.state;
        let a = run.on_pull(&mut state, r);
        self.state = state;
        a
    }

    /// Starts a scan of the whole stream for its exact duration, which
    /// returns to the current timestamp (or the start); its first step is a
    /// seek to the start (see [`DurationScanner::scan_exact`]).
    pub fn scan_exact_duration(&self, fast_mode: bool) -> (r: (ScanRun, ScanAction))
        ensures
            r.0.fast() == fast_mode,
            r.0.rate() == self.info_view().sample_rate,
            self.state_view().current_pts matches Some(d) ==> r.0.origin() == d,
            self.state_view().current_pts is None ==> duration_nanos(r.0.origin()) == 0,
            DurationScanner::fresh(r.0),
            r.1 matches ScanAction::SeekTo(z) && duration_nanos(z) == 0,
    {
        DurationScanner::scan_exact(&self.state, &self.source_info, fast_mode)
    }
}

/// The source information prefers what the codec parameters give: their
/// bit rate whenever it is positive, whatever the container reports (the
/// container's rate only when the codec's is not positive), and the bits
/// per raw sample whenever positive (else the bits per coded sample); rate,
/// channels and names are those of the stream.
pub proof fn lemma_source_info_prefers_the_codec(si: SourceAudioInfo, p: StreamProbe)
    requires
        source_info_matches(si, p),
    ensures
        p.codec_bit_rate > 0 ==> si.bit_rate == p.codec_bit_rate,
        p.codec_bit_rate <= 0 ==> si.bit_rate == p.container_bit_rate,
        p.bits_per_raw_sample > 0 ==> si.bits_per_sample == p.bits_per_raw_sample,
        p.bits_per_raw_sample <= 0 ==> si.bits_per_sample == p.bits_per_coded_sample,
        si.sample_rate == p.sample_rate,
        si.channels == p.channels,
        opt_view(si.codec_name) == opt_view(p.codec_name),
        opt_view(si.sample_fmt) == opt_view(p.sample_fmt),
{
}

} // verus!
