//! The decode engine: the playback state of a stream FFmpeg opened, with the
//! steps of pulling, seeking and duration scanning.

use std::time::Duration;
use vstd::prelude::*;

use crate::error::{invalid_data_error, invalid_data_text, AudioErrorView, Result};
use crate::frame::{AudioFrame, RawFrame};
use crate::reader::{
    pull_step, pts_matches, seek_demuxer_step, seek_pull_step, AudioPipeline, DurationScanner,
    PlaybackState, PullAction, PullEvent, ScanAction, ScanRun, SeekAction, SeekEngine, SeekRun,
};
use crate::time::{duration_from_micros, duration_nanos, Rational, TimeBase};

verus! {

/// The strategy of a duration scan.
#[derive(Debug, Clone, Copy, PartialEq, Eq, Structural)]
pub enum ScanMode {
    /// Reads packet timestamps without decoding: fast, relies on the
    /// container's timestamps.
    Packet,
    /// Decodes every frame: slower, counts the samples produced.
    Frame,
}

/// The time a scan returns to: the timestamp of the frame a seek left (the
/// decoder's current frame `left`), or the current timestamp, or zero.
pub open spec fn engine_origin_nanos(st: PlaybackState, left: Option<RawFrame>) -> int {
    if st.has_buffered_seek_frame && left is Some {
        match AudioFrame::new_spec(left.unwrap(), st.time_base).pts_nanos_spec() {
            Some(n) => n,
            None => 0,
        }
    } else {
        match st.current_pts {
            Some(d) => duration_nanos(d) as int,
            None => 0,
        }
    }
}

/// The playback state of a stream FFmpeg opened, and the decoder's sample
/// rate.
#[derive(Clone, Copy, Debug)]
pub struct DecodeEngine {
    state: PlaybackState,
    sample_rate: i32,
}

impl DecodeEngine {
    /// What every engine keeps: the playback state's invariant.
    #[verifier::type_invariant]
    spec fn inv(self) -> bool {
        self.state.inv()
    }

    /// The playback state.
    pub closed spec fn state_view(self) -> PlaybackState {
        self.state
    }

    /// The decoder's sample rate.
    pub closed spec fn rate(self) -> int {
        self.sample_rate as int
    }

    /// An engine for a stream with this time base, decoded at `sample_rate`;
    /// "invalid data" when the time base is not positive.
    pub fn new(time_base: Rational, sample_rate: i32) -> (r: Result<DecodeEngine>)
        ensures
            !(time_base.num > 0 && time_base.den > 0) ==> (r matches Err(e) && e.view_error()
                == AudioErrorView::FFmpeg(crate::consts::AVERROR_INVALIDDATA, invalid_data_text())),
            time_base.num > 0 && time_base.den > 0 ==> (r matches Ok(engine) && {
                &&& engine.state_view().time_base.num() == time_base.num
                &&& engine.state_view().time_base.den() == time_base.den
                &&& engine.state_view().current_pts is None
                &&& !engine.state_view().is_exhausted
                &&& !engine.state_view().has_buffered_seek_frame
                &&& engine.rate() == sample_rate
            }),
    {
        match TimeBase::try_new(time_base) {
            Some(tb) => Ok(DecodeEngine { state: PlaybackState::new(tb), sample_rate }),
            None => Err(invalid_data_error()),
        }
    }

    /// One step of pulling the next decoded frame (see [`pull_step`]).
    pub fn receive_frame(&mut self, event: PullEvent) -> (a: PullAction)
        ensures
            pull_step(old(self).state_view(), event, final(self).state_view(), a),
            final(self).rate() == old(self).rate(),
    {
        proof {
            use_type_invariant(&*self);
        }
        self.state.debug_verify();
        let mut state = self.state;
        let a = AudioPipeline::receive_frame(&mut state, event);
        *self = DecodeEngine { state, sample_rate: self.sample_rate };
        a
    }

    /// Starts a seek to `target`, counting frame lengths at the decoder's
    /// sample rate.
    pub fn seek(&self, target: Duration) -> (run: SeekRun)
        ensures
            run.target_micros() == duration_nanos(target) / 1000,
            run.rate() == self.rate(),
    {
        proof {
            use_type_invariant(self);
        }
        SeekEngine::seek_with_rate(&self.state, self.sample_rate, target)
    }

    /// The step of the seek `run` after the demuxer's seek (see
    /// [`seek_demuxer_step`]).
    pub fn seek_on_demuxer(&mut self, run: &SeekRun, r: Result<()>) -> (a: SeekAction)
        ensures
            seek_demuxer_step(old(self).state_view(), r, final(self).state_view(), a),
            final(self).rate() == old(self).rate(),
    {
        proof {
            use_type_invariant(&*self);
        }
        let mut state = self.state;
        let a = run.on_demuxer_seek(&mut state, r);
        *self = DecodeEngine { state, sample_rate: self.sample_rate };
        a
    }

    /// The step of the seek `run` after a pull (see [`seek_pull_step`]).
    pub fn seek_on_pull(&mut self, run: &SeekRun, r: Result<Option<AudioFrame>>) -> (a: SeekAction)
        requires
            r matches Ok(Some(f)) ==> (f.pts_nanos_spec() matches Some(n) ==> n / 1_000_000_000
                <= u64::MAX),
        ensures
            seek_pull_step(*run, old(self).state_view(), r, final(self).state_view(), a),
            final(self).rate() == old(self).rate(),
    {
        proof {
            use_type_invariant(&*self);
        }
        let mut state = self.state;
        let a = run.on_pull(&mut state, r);
        *self = DecodeEngine { state, sample_rate: self.sample_rate };
        a
    }

    /// Starts a scan for the exact total duration, which returns to the
    /// frame a seek left (the decoder's current frame `left`), or the current
    /// timestamp, or the start; its first step is a seek to the start.
    pub fn scan_duration(&self, mode: ScanMode, left: Option<RawFrame>) -> (r: (
        ScanRun,
        ScanAction,
    ))
        ensures
            r.0.fast() == (mode == ScanMode::Packet),
            r.0.rate() == self.rate(),
            duration_nanos(r.0.origin()) == engine_origin_nanos(self.state_view(), left),
            DurationScanner::fresh(r.0),
            r.1 matches ScanAction::SeekTo(z) && duration_nanos(z) == 0,
    {
        proof {
            use_type_invariant(self);
        }
        let position = if self.state.has_buffered_seek_frame {
            match left {
                Some(raw) => {
                    let frame = AudioFrame::new(raw, self.state.time_base);
                    proof {
                        frame.lemma_pts_in_range();
                    }
                    let p = frame.pts();
                    match p {
                        Some(d) => Some(d),
                        None => Some(duration_from_micros(0)),
                    }
                },
                None => self.state.current_pts,
            }
        } else {
            self.state.current_pts
        };
        let origin = match position {
            Some(d) => d,
            None => duration_from_micros(0),
        };
        let fast = match mode {
            ScanMode::Packet => true,
            ScanMode::Frame => false,
        };
        DurationScanner::scan_from(origin, self.sample_rate, fast)
    }

    /// The timestamp of the frame most recently pulled; `None` before any
    /// frame and right after a seek.
    pub fn stream_position(&self) -> (t: Option<Duration>)
        ensures
            t == self.state_view().current_pts,
    {
        self.state.current_pts
    }

    /// Whether a seek left a decoded frame for the next pull.
    pub fn has_buffered_seek_frame(&self) -> (b: bool)
        ensures
            b == self.state_view().has_buffered_seek_frame,
    {
        self.state.has_buffered_seek_frame
    }

    /// The time base of the stream.
    pub fn time_base(&self) -> (tb: TimeBase)
        ensures
            tb == self.state_view().time_base,
    {
        self.state.time_base
    }
}

} // verus!
