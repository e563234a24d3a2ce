//! The playback state machine: pulling frames, seeking and scanning the exact
//! duration. Each is a machine of steps: from what the last demuxer or
//! decoder call gave to the next call to make, or to the result.

use std::time::Duration;
use vstd::prelude::*;

use crate::audio::SourceAudioInfo;
use crate::error::{AudioError, Result};
use crate::frame::{AudioFrame, RawFrame, AV_NOPTS_VALUE};
use crate::time::{duration_from_micros, duration_from_nanos, duration_micros, duration_nanos, TimeBase};

verus! {

/// Whether an optional duration carries the optional nanosecond count `n`.
pub open spec fn pts_matches(p: Option<Duration>, n: Option<int>) -> bool {
    match p {
        None => n is None,
        Some(d) => n == Some(duration_nanos(d) as int),
    }
}

/// The playback position and the flags of the pull/seek protocol.
#[derive(Clone, Copy, Debug)]
pub struct PlaybackState {
    /// The time base of the stream's timestamps.
    pub time_base: TimeBase,
    /// The timestamp of the frame most recently handed out, if any.
    pub current_pts: Option<Duration>,
    /// Whether the stream has ended.
    pub is_exhausted: bool,
    /// Whether a seek left a decoded frame for the next pull.
    pub has_buffered_seek_frame: bool,
}

impl PlaybackState {
    /// A stream that has ended holds no frame left by a seek.
    pub open spec fn inv(self) -> bool {
        !(self.is_exhausted && self.has_buffered_seek_frame)
    }

    /// The state before any frame was pulled.
    pub fn new(time_base: TimeBase) -> (s: PlaybackState)
        ensures
            s.time_base == time_base,
            s.current_pts is None,
            !s.is_exhausted,
            !s.has_buffered_seek_frame,
    {
        PlaybackState {
            time_base,
            current_pts: None,
            is_exhausted: false,
            has_buffered_seek_frame: false,
        }
    }

    /// Checks the state's invariant (and that of its time base, which the
    /// type keeps); a state that breaks it is not accepted.
    pub fn debug_verify(&self)
        requires
            self.inv(),
    {
        let _parts = self.time_base.positive_parts();
    }
}

/// The timestamp of a frame that a pull hands out, when it has one.
fn frame_pts(f: &AudioFrame) -> (r: Option<Duration>)
    requires
        f.offset_spec() == 0,
    ensures
        pts_matches(r, f.pts_nanos_spec()),
{
    proof {
        if f.pts_nanos_spec() is Some {
            let us = f.time_base().micros(f.relative_pts());
            assert(f.offset_nanos() == 0);
            assert((if us > 0 {
                us
            } else {
                0
            }) * 1000 <= i64::MAX * 1000);
        }
    }
    f.pts()
}

/// The next call a pull asks for, or its result.
pub enum PullAction {
    /// Take the decoder's current frame (the one a seek left) and report it.
    TakeBufferedFrame,
    /// Ask the decoder for a decoded frame.
    ReceiveFrame,
    /// Read the next packet of the stream.
    ReadPacket,
    /// Send the packet just read to the decoder.
    SendPacket,
    /// Tell the decoder that the input has ended.
    SendEof,
    /// The pull is over: a frame, `None` at the end of the stream, or an error.
    Done(Result<Option<AudioFrame>>),
}

/// What the last call of a pull gave.
pub enum PullEvent {
    /// A pull begins.
    Start,
    /// The decoder's current frame, as asked by `TakeBufferedFrame`.
    BufferedFrame(RawFrame),
    /// What asking the decoder for a frame gave: a frame, `None` once it is
    /// drained, "try again" when it needs a packet, or an error.
    Received(Result<Option<RawFrame>>),
    /// What reading a packet gave: `true` for a packet, `false` at the end of
    /// the stream, or an error.
    PacketRead(Result<bool>),
    /// What sending a packet, or the end of the input, gave.
    Sent(Result<()>),
}

/// The frame a pull hands out for what the decoder reported.
pub open spec fn pulled_frame(raw: RawFrame, tb: TimeBase) -> AudioFrame {
    AudioFrame::new_spec(raw, tb)
}

/// Whether a pull that hands out `raw` left the state `st1` from `st0`: the
/// frame's timestamp becomes current, nothing else changes.
pub open spec fn delivered(st0: PlaybackState, st1: PlaybackState, raw: RawFrame) -> bool {
    &&& st1.time_base == st0.time_base
    &&& st1.is_exhausted == st0.is_exhausted
    &&& st1.has_buffered_seek_frame == st0.has_buffered_seek_frame
    &&& pts_matches(st1.current_pts, pulled_frame(raw, st0.time_base).pts_nanos_spec())
}

/// Whether the action hands out the frame the decoder reported as `raw`.
pub open spec fn delivers(a: PullAction, raw: RawFrame, tb: TimeBase) -> bool {
    a matches PullAction::Done(Ok(Some(f))) && f == pulled_frame(raw, tb)
}

/// What one step of a pull does, from state `st0` and what the last call
/// gave (`ev`) to state `st1` and the next call or result `a`. A pull starts:
/// once the stream has ended it gives nothing; a frame a seek left is taken;
/// else the decoder is asked for a frame. A frame is handed out, and its
/// timestamp becomes current. A decoder that needs input gets the next
/// packet, or the end of the input when no packet is left, and is asked
/// again. A drained decoder ends the stream. Any other error ends the pull
/// with that error.
pub open spec fn pull_step(st0: PlaybackState, ev: PullEvent, st1: PlaybackState, a: PullAction) -> bool {
    &&& st1.time_base == st0.time_base
    &&& ev is Start && st0.is_exhausted ==> (a matches PullAction::Done(Ok(None)) && st1 == st0)
    &&& ev is Start && !st0.is_exhausted && st0.has_buffered_seek_frame ==> a is TakeBufferedFrame
        && st1 == (PlaybackState { has_buffered_seek_frame: false, ..st0 })
    &&& ev is Start && !st0.is_exhausted && !st0.has_buffered_seek_frame ==> a is ReceiveFrame
        && st1 == st0
    &&& ev matches PullEvent::BufferedFrame(raw) ==> delivers(a, raw, st0.time_base) && delivered(
        st0,
        st1,
        raw,
    )
    &&& ev matches PullEvent::Received(Ok(Some(raw))) ==> delivers(a, raw, st0.time_base)
        && delivered(st0, st1, raw)
    &&& ev matches PullEvent::Received(Ok(None)) ==> (a matches PullAction::Done(Ok(None)) && st1
        == (PlaybackState { is_exhausted: true, has_buffered_seek_frame: false, ..st0 }))
    &&& ev matches PullEvent::Received(Err(e)) ==> if e is Eagain {
        a is ReadPacket && st1 == st0
    } else {
        a == PullAction::Done(Err(e)) && st1 == st0
    }
    &&& ev matches PullEvent::PacketRead(Ok(true)) ==> a is SendPacket && st1 == st0
    &&& ev matches PullEvent::PacketRead(Ok(false)) ==> a is SendEof && st1 == st0
    &&& ev matches PullEvent::PacketRead(Err(e)) ==> a == PullAction::Done(Err(e)) && st1 == st0
    &&& ev matches PullEvent::Sent(Ok(())) ==> a is ReceiveFrame && st1 == st0
    &&& ev matches PullEvent::Sent(Err(e)) ==> a == PullAction::Done(Err(e)) && st1 == st0
}

/// Pulls frames out of a demuxer and a decoder.
pub struct AudioPipeline;

impl AudioPipeline {
    /// One step of a pull (see [`pull_step`]).
    pub fn receive_frame(state: &mut PlaybackState, event: PullEvent) -> (a: PullAction)
        requires
            old(state).inv(),
        ensures
            final(state).inv(),
            pull_step(*old(state), event, *final(state), a),
    {
        match event {
            PullEvent::Start => {
                if state.is_exhausted {
                    PullAction::Done(Ok(None))
                } else if state.has_buffered_seek_frame {
                    state.has_buffered_seek_frame = false;
                    PullAction::TakeBufferedFrame
                } else {
                    PullAction::ReceiveFrame
                }
            },
            PullEvent::BufferedFrame(raw) => Self::hand_out(state, raw),
            PullEvent::Received(Ok(Some(raw))) => Self::hand_out(state, raw),
            PullEvent::Received(Ok(None)) => {
                state.is_exhausted = true;
                state.has_buffered_seek_frame = false;
                PullAction::Done(Ok(None))
            },
            PullEvent::Received(Err(AudioError::Eagain)) => PullAction::ReadPacket,
            PullEvent::Received(Err(e)) => PullAction::Done(Err(e)),
            PullEvent::PacketRead(Ok(true)) => PullAction::SendPacket,
            PullEvent::PacketRead(Ok(false)) => PullAction::SendEof,
            PullEvent::PacketRead(Err(e)) => PullAction::Done(Err(e)),
            PullEvent::Sent(Ok(())) => PullAction::ReceiveFrame,
            PullEvent::Sent(Err(e)) => PullAction::Done(Err(e)),
        }
    }

    /// Hands out the frame the decoder reported; its timestamp becomes
    /// current.
    fn hand_out(state: &mut PlaybackState, raw: RawFrame) -> (a: PullAction)
        ensures
            delivers(a, raw, old(state).time_base),
            delivered(*old(state), *final(state), raw),
    {
        let frame = AudioFrame::new(raw, state.time_base);
        state.current_pts = frame_pts(&frame);
        PullAction::Done(Ok(Some(frame)))
    }
}

/// The whole microseconds that `n` samples last at `sr` samples per second
/// (zero for a rate that is not positive).
pub open spec fn span_micros(n: int, sr: int) -> int {
    if sr > 0 {
        n * 1_000_000 / sr
    } else {
        0
    }
}

/// Whether a seek to `target_us` stops at the frame `f`: a frame without a
/// timestamp stops it, as does one whose end (its start plus its samples at
/// `sr` per second, in whole microseconds) reaches the target.
pub open spec fn seek_stops_at(f: AudioFrame, target_us: int, sr: int) -> bool {
    match f.pts_nanos_spec() {
        None => true,
        Some(n) => n / 1000 + span_micros(f.samples_spec(), sr) >= target_us,
    }
}

/// The next call a seek asks for, or its result.
pub enum SeekAction {
    /// Flush the decoder, then pull a frame (and report it).
    FlushAndPull,
    /// Pull the next frame (and report it).
    Pull,
    /// The seek is over.
    Done(Result<()>),
}

/// What the step after the demuxer's seek does: a failed seek ends with its
/// error and changes nothing; after one that succeeded the stream has not
/// ended, no frame is left and no timestamp is current, and the decoder is
/// flushed and a frame pulled.
pub open spec fn seek_demuxer_step(st0: PlaybackState, r: Result<()>, st1: PlaybackState, a: SeekAction) -> bool {
    &&& r matches Err(e) ==> a == SeekAction::Done(Err(e)) && st1 == st0
    &&& r is Ok ==> a is FlushAndPull && st1 == (PlaybackState {
        is_exhausted: false,
        current_pts: None,
        has_buffered_seek_frame: false,
        ..st0
    })
}

/// What the step after a pull of a seek does: frames are dropped until one
/// stops the seek (see [`seek_stops_at`]); that frame is left for the next
/// pull. The seek ends there, or at the end of the stream, with no timestamp
/// current. A failed pull ends the seek with its error.
pub open spec fn seek_pull_step(
    run: SeekRun,
    st0: PlaybackState,
    r: Result<Option<AudioFrame>>,
    st1: PlaybackState,
    a: SeekAction,
) -> bool {
    &&& r matches Err(e) ==> a == SeekAction::Done(Err(e)) && st1 == st0
    &&& r matches Ok(None) ==> a == SeekAction::Done(Ok(())) && st1 == (PlaybackState {
        current_pts: None,
        ..st0
    })
    &&& r matches Ok(Some(f)) ==> if seek_stops_at(f, run.target_micros(), run.rate()) {
        a == SeekAction::Done(Ok(())) && st1 == (PlaybackState {
            current_pts: None,
            has_buffered_seek_frame: true,
            is_exhausted: false,
            ..st0
        })
    } else {
        a is Pull && st1 == st0
    }
}

/// A seek under way: its target and the sample rate its frame lengths count
/// at. It starts with the demuxer's seek to the target.
#[derive(Clone, Copy, Debug)]
pub struct SeekRun {
    target_us: u128,
    sample_rate: i32,
}

impl SeekRun {
    /// The target in whole microseconds.
    pub closed spec fn target_micros(self) -> int {
        self.target_us as int
    }

    /// The sample rate frame lengths count at.
    pub closed spec fn rate(self) -> int {
        self.sample_rate as int
    }

    /// The step after the demuxer's seek (see [`seek_demuxer_step`]).
    pub fn on_demuxer_seek(&self, state: &mut PlaybackState, r: Result<()>) -> (a: SeekAction)
        requires
            old(state).inv(),
        ensures
            final(state).inv(),
            seek_demuxer_step(*old(state), r, *final(state), a),
    {
        match r {
            Err(e) => SeekAction::Done(Err(e)),
            Ok(()) => {
                state.is_exhausted = false;
                state.current_pts = None;
                state.has_buffered_seek_frame = false;
                SeekAction::FlushAndPull
            },
        }
    }

    /// The step after a pull (see [`seek_pull_step`]).
    pub fn on_pull(&self, state: &mut PlaybackState, r: Result<Option<AudioFrame>>) -> (a:
        SeekAction)
        requires
            old(state).inv(),
            r matches Ok(Some(f)) ==> (f.pts_nanos_spec() matches Some(n) ==> n / 1_000_000_000
                <= u64::MAX),
        ensures
            final(state).inv(),
            seek_pull_step(*self, *old(state), r, *final(state), a),
    {
        match r {
            Err(e) => SeekAction::Done(Err(e)),
            Ok(None) => {
                state.current_pts = None;
                SeekAction::Done(Ok(()))
            },
            Ok(Some(frame)) => {
                let stop = match frame.pts() {
                    Some(pts) => {
                        let pts_us = duration_micros(pts);
                        let duration_us: u128 = if self.sample_rate > 0 {
                            frame.samples() as u128 * 1_000_000 / self.sample_rate as u128
                        } else {
                            0
                        };
                        pts_us + duration_us >= self.target_us
                    },
                    None => true,
                };
                if stop {
                    state.has_buffered_seek_frame = true;
                    state.is_exhausted = false;
                    state.current_pts = None;
                    SeekAction::Done(Ok(()))
                } else {
                    SeekAction::Pull
                }
            },
        }
    }
}

/// Seeks with decode-and-discard.
pub struct SeekEngine;

impl SeekEngine {
    /// Starts a seek to `target`: the demuxer seeks to it, then frames are
    /// decoded and dropped until one reaches the target (its end is at or
    /// after it), counting frame lengths at the source's sample rate; that
    /// frame is left for the next pull.
    pub fn seek_to(state: &PlaybackState, source_info: &SourceAudioInfo, target: Duration) -> (run:
        SeekRun)
        requires
            state.inv(),
        ensures
            run.target_micros() == duration_nanos(target) / 1000,
            run.rate() == source_info.sample_rate,
    {
        Self::seek_with_rate(state, source_info.sample_rate, target)
    }

    /// Starts a seek to `target` whose frame lengths count at `sample_rate`.
    pub fn seek_with_rate(state: &PlaybackState, sample_rate: i32, target: Duration) -> (run:
        SeekRun)
        requires
            state.inv(),
        ensures
            run.target_micros() == duration_nanos(target) / 1000,
            run.rate() == sample_rate,
    {
        state.debug_verify();
        SeekRun { target_us: duration_micros(target), sample_rate }
    }
}

/// The next call a scan asks for, or its result.
pub enum ScanAction {
    /// Seek to this time (and report how it went).
    SeekTo(Duration),
    /// Read the next packet (and report its timing).
    ReadPacket,
    /// Pull the next frame (and report it).
    Pull,
    /// The scan is over.
    Done(Result<Option<Duration>>),
}

/// The timing of a packet: its timestamp (or `AV_NOPTS_VALUE`) and its
/// length, in stream ticks.
#[derive(Clone, Copy, Debug, PartialEq, Eq)]
pub struct PacketTiming {
    pub pts: i64,
    pub duration: i64,
}

/// The later of an optional maximum (none counts as zero) and `v`.
pub open spec fn max_with(m: Option<i64>, v: int) -> int {
    let prev: int = match m {
        Some(x) => x as int,
        None => 0,
    };
    if prev >= v {
        prev
    } else {
        v
    }
}

/// The end of a packet in ticks: its timestamp plus its length when that is
/// positive (clamped to `i64`).
pub open spec fn packet_end(p: PacketTiming) -> int {
    if p.duration > 0 {
        crate::frame::saturating_add_i64(p.pts as int, p.duration as int)
    } else {
        p.pts as int
    }
}

/// Whether a packet counts in a packet-level scan: it has a timestamp and
/// the microseconds of its end fit in `i64`.
pub open spec fn packet_counts(p: PacketTiming, tb: TimeBase) -> bool {
    p.pts != AV_NOPTS_VALUE && crate::time::fits_i64(tb.micros(packet_end(p)))
}

/// The latest time after the packet `p`: its end in microseconds, if it
/// counts and is later.
pub open spec fn packet_step_max(m: Option<i64>, p: PacketTiming, tb: TimeBase) -> Option<i64> {
    if packet_counts(p, tb) {
        Some(max_with(m, tb.micros(packet_end(p))) as i64)
    } else {
        m
    }
}

/// The latest time after the packets `ps`, one after the other.
pub open spec fn packets_max(m: Option<i64>, ps: Seq<PacketTiming>, tb: TimeBase) -> Option<i64>
    decreases ps.len(),
{
    if ps.len() == 0 {
        m
    } else {
        packets_max(packet_step_max(m, ps[0], tb), ps.drop_first(), tb)
    }
}

/// An optional time, none counting as zero.
pub open spec fn or_zero(m: Option<i64>) -> int {
    match m {
        Some(x) => x as int,
        None => 0,
    }
}

/// The result of a scan that found the latest time `max_us` (if any), the
/// length `last_us` of the last frame, and `total` samples, at `sr` samples
/// per second: the latest time plus that length (none below zero, clamped to
/// `i64`), in nanoseconds; without a time, for a frame-level scan that found
/// samples, the samples' length; else none.
pub open spec fn scan_result_nanos(
    fast: bool,
    max_us: Option<i64>,
    last_us: i64,
    total: int,
    sr: int,
) -> Option<int> {
    match max_us {
        Some(m) => {
            let t = crate::frame::saturating_add_i64(m as int, last_us as int);
            Some(
                (if t > 0 {
                    t
                } else {
                    0
                }) * 1000,
            )
        },
        None => if !fast && total > 0 && sr > 0 {
            Some(total * 1_000_000_000 / sr)
        } else {
            None
        },
    }
}

/// An exact-duration scan under way.
pub struct ScanRun {
    fast_mode: bool,
    sample_rate: i32,
    original_position: Duration,
    returning: bool,
    max_pts_us: Option<i64>,
    last_frame_duration_us: i64,
    total_samples: usize,
    scan_error: Option<AudioError>,
}

impl ScanRun {
    /// Whether the scan reads packet timestamps (rather than decoding).
    pub closed spec fn fast(self) -> bool {
        self.fast_mode
    }

    /// The sample rate frame lengths count at.
    pub closed spec fn rate(self) -> int {
        self.sample_rate as int
    }

    /// The time the scan returns to.
    pub closed spec fn origin(self) -> Duration {
        self.original_position
    }

    /// Whether the scan is seeking back to where it started.
    pub closed spec fn returning(self) -> bool {
        self.returning
    }

    /// The latest time found so far, in microseconds.
    pub closed spec fn max_micros(self) -> Option<i64> {
        self.max_pts_us
    }

    /// The length of the last frame decoded, in microseconds.
    pub closed spec fn last_micros(self) -> i64 {
        self.last_frame_duration_us
    }

    /// The samples decoded so far.
    pub closed spec fn total(self) -> int {
        self.total_samples as int
    }

    /// The error that stopped the scanning, if any.
    pub closed spec fn error(self) -> Option<AudioError> {
        self.scan_error
    }

    /// The time the scan returns to.
    pub fn origin_position(&self) -> (d: Duration)
        ensures
            d == self.origin(),
    {
        self.original_position
    }

    /// Whether only the counters and the error differ between `a` and `b`.
    pub open spec fn same_plan(a: ScanRun, b: ScanRun) -> bool {
        &&& a.fast() == b.fast()
        &&& a.rate() == b.rate()
        &&& a.origin() == b.origin()
    }

    /// The step after a seek: the seek to the start, then packets are read
    /// (packet-level scan) or frames pulled (frame-level scan); the seek
    /// back, then the result, or the error that stopped the scanning. A
    /// failed seek ends the scan with its error. In a packet-level scan, the
    /// frame the seek to the start left (`left`, if any) counts with its end:
    /// the packets it came from were read by that seek.
    pub fn on_seek(&mut self, r: Result<()>, left: Option<AudioFrame>) -> (a: ScanAction)
        requires
            left matches Some(f) ==> f.offset_spec() == 0,
        ensures
            ScanRun::same_plan(*old(self), *final(self)),
            final(self).returning() == old(self).returning(),
            final(self).total() == old(self).total(),
            final(self).last_micros() == old(self).last_micros(),
            !(r is Ok && old(self).returning()) ==> final(self).error() == old(self).error(),
            r matches Err(e) ==> a == ScanAction::Done(Err(e)) && final(self).max_micros() == old(
                self,
            ).max_micros(),
            r is Ok && !old(self).returning() && !old(self).fast() ==> a is Pull
                && final(self).max_micros() == old(self).max_micros(),
            r is Ok && !old(self).returning() && old(self).fast() ==> a is ReadPacket && (match left {
                Some(f) => match f.pts_nanos_spec() {
                    Some(n) => final(self).max_micros() == Some(
                        clamp_i64_spec(n / 1000 + span_micros(f.samples_spec(), old(self).rate())) as i64,
                    ),
                    None => final(self).max_micros() == old(self).max_micros(),
                },
                None => final(self).max_micros() == old(self).max_micros(),
            }),
            r is Ok && old(self).returning() ==> final(self).max_micros() == old(self).max_micros()
                && match old(self).error() {
                Some(e) => a == ScanAction::Done(Err(e)),
                None => a matches ScanAction::Done(Ok(d)) && match scan_result_nanos(
                    old(self).fast(),
                    old(self).max_micros(),
                    old(self).last_micros(),
                    old(self).total(),
                    old(self).rate(),
                ) {
                    Some(n) => d matches Some(x) && duration_nanos(x) == n,
                    None => d is None,
                },
            },
    {
        match r {
            Err(e) => {
                return ScanAction::Done(Err(e));
            },
            Ok(()) => {},
        }
        if !self.returning {
            if self.fast_mode {
                match left {
                    Some(f) => match frame_pts(&f) {
                        Some(pts) => {
                            let us = duration_micros(pts);
                            let span: u128 = if self.sample_rate > 0 {
                                f.samples() as u128 * 1_000_000 / self.sample_rate as u128
                            } else {
                                0
                            };
                            proof {
                                f.lemma_pts_in_range();
                                assert(span <= f.samples_spec() * 1_000_000) by (nonlinear_arith)
                                    requires
                                        span == 0 || (self.sample_rate >= 1 && span == f.samples_spec()
                                            * 1_000_000 / (self.sample_rate as int)),
                                        f.samples_spec() >= 0,
                                ;
                                assert(f.samples_spec() <= usize::MAX);
                            }
                            let end: u128 = us + span;
                            self.max_pts_us = Some(clamp_i64(end));
                        },
                        None => {},
                    },
                    None => {},
                }
                ScanAction::ReadPacket
            } else {
                ScanAction::Pull
            }
        } else {
            let err = self.scan_error.take();
            match err {
                Some(e) => ScanAction::Done(Err(e)),
                None => ScanAction::Done(Ok(self.result())),
            }
        }
    }

    /// The duration the scan found.
    fn result(&self) -> (d: Option<Duration>)
        ensures
            match scan_result_nanos(
                self.fast(),
                self.max_micros(),
                self.last_micros(),
                self.total(),
                self.rate(),
            ) {
                Some(n) => d matches Some(x) && duration_nanos(x) == n,
                None => d is None,
            },
    {
        match self.max_pts_us {
            Some(pts) => {
                let total_us: i64 = saturating_add(pts, self.last_frame_duration_us);
                let clamped: u64 = if total_us > 0 {
                    total_us as u64
                } else {
                    0
                };
                Some(duration_from_micros(clamped))
            },
            None => {
                if !self.fast_mode && self.total_samples > 0 && self.sample_rate > 0 {
                    let nanos: u128 = self.total_samples as u128 * 1_000_000_000
                        / self.sample_rate as u128;
                    Some(duration_from_nanos(nanos))
                } else {
                    None
                }
            },
        }
    }

    /// The step after a packet read (packet-level scan): a packet with a
    /// timestamp moves the latest time to its end (in microseconds of
    /// `time_base`) if that is later; then the next packet is read. At the end
    /// of the stream, or on a read error (kept for the result), the scan
    /// seeks back to where it started.
    pub fn on_packet(&mut self, r: Result<Option<PacketTiming>>, time_base: TimeBase) -> (a:
        ScanAction)
        ensures
            ScanRun::same_plan(*old(self), *final(self)),
            final(self).total() == old(self).total(),
            final(self).last_micros() == old(self).last_micros(),
            r matches Ok(Some(p)) ==> a is ReadPacket && final(self).returning() == old(
                self,
            ).returning() && final(self).error() == old(self).error() && final(self).max_micros()
                == packet_step_max(old(self).max_micros(), p, time_base),
            r matches Ok(None) ==> a == ScanAction::SeekTo(old(self).origin())
                && final(self).returning() && final(self).error() == old(self).error()
                && final(self).max_micros() == old(self).max_micros(),
            r matches Err(e) ==> a == ScanAction::SeekTo(old(self).origin())
                && final(self).returning() && final(self).error() == Some(e)
                && final(self).max_micros() == old(self).max_micros(),
    {
        match r {
            Ok(Some(p)) => {
                if p.pts != AV_NOPTS_VALUE {
                    let end_pts: i64 = if p.duration > 0 {
                        saturating_add(p.pts, p.duration)
                    } else {
                        p.pts
                    };
                    match time_base.calc_micros(end_pts) {
                        Some(end_us) => {
                            let prev: i64 = match self.max_pts_us {
                                Some(m) => m,
                                None => 0,
                            };
                            self.max_pts_us = Some(
                                if prev >= end_us {
                                    prev
                                } else {
                                    end_us
                                },
                            );
                        },
                        None => {},
                    }
                }
                ScanAction::ReadPacket
            },
            Ok(None) => {
                self.returning = true;
                ScanAction::SeekTo(self.original_position)
            },
            Err(e) => {
                self.scan_error = Some(e);
                self.returning = true;
                ScanAction::SeekTo(self.original_position)
            },
        }
    }

    /// The step after a pull (frame-level scan): a frame adds its samples,
    /// moves the latest time to its timestamp (in whole microseconds) if that
    /// is later, and, at a positive sample rate, sets the last frame's length;
    /// then the next frame is pulled. At the end of the stream, or on a pull
    /// error (kept for the result), the scan seeks back to where it started.
    pub fn on_pull(&mut self, r: Result<Option<AudioFrame>>) -> (a: ScanAction)
        requires
            r matches Ok(Some(f)) ==> f.offset_spec() == 0,
        ensures
            ScanRun::same_plan(*old(self), *final(self)),
            r matches Ok(Some(f)) ==> a is Pull && final(self).returning() == old(self).returning()
                && final(self).error() == old(self).error() && final(self).total() == (if old(
                self,
            ).total() + f.samples_spec() <= usize::MAX {
                old(self).total() + f.samples_spec()
            } else {
                usize::MAX as int
            }) && (match f.pts_nanos_spec() {
                Some(n) => final(self).max_micros() == Some(
                    max_with(old(self).max_micros(), n / 1000) as i64,
                ),
                None => final(self).max_micros() == old(self).max_micros(),
            }) && final(self).last_micros() == (if old(self).rate() > 0 {
                clamp_i64_spec(span_micros(f.samples_spec(), old(self).rate()))
            } else {
                old(self).last_micros() as int
            }),
            r matches Ok(None) ==> a == ScanAction::SeekTo(old(self).origin())
                && final(self).returning() && final(self).error() == old(self).error()
                && final(self).max_micros() == old(self).max_micros() && final(self).total() == old(
                self,
            ).total() && final(self).last_micros() == old(self).last_micros(),
            r matches Err(e) ==> a == ScanAction::SeekTo(old(self).origin())
                && final(self).returning() && final(self).error() == Some(e)
                && final(self).max_micros() == old(self).max_micros() && final(self).total() == old(
                self,
            ).total() && final(self).last_micros() == old(self).last_micros(),
    {
        match r {
            Ok(Some(frame)) => {
                let samples = frame.samples();
                self.total_samples = self.total_samples.saturating_add(samples);
                match frame_pts(&frame) {
                    Some(pts) => {
                        let pts_us = duration_micros(pts);
                        proof {
                            assert(pts_us <= i64::MAX);
                        }
                        let pts_us = pts_us as i64;
                        let prev: i64 = match self.max_pts_us {
                            Some(m) => m,
                            None => 0,
                        };
                        self.max_pts_us = Some(
                            if prev >= pts_us {
                                prev
                            } else {
                                pts_us
                            },
                        );
                    },
                    None => {},
                }
                if self.sample_rate > 0 {
                    let span: u128 = samples as u128 * 1_000_000 / self.sample_rate as u128;
                    self.last_frame_duration_us = clamp_i64(span);
                }
                ScanAction::Pull
            },
            Ok(None) => {
                self.returning = true;
                ScanAction::SeekTo(self.original_position)
            },
            Err(e) => {
                self.scan_error = Some(e);
                self.returning = true;
                ScanAction::SeekTo(self.original_position)
            },
        }
    }
}

/// Scans a stream for its exact duration.
pub struct DurationScanner;

impl DurationScanner {
    /// Starts a scan of the whole stream for its exact duration; the scan
    /// returns to the current timestamp (or the start) when it is done.
    ///
    /// With `fast_mode`, packet timestamps are read without decoding: the
    /// result is the latest packet end. Otherwise every frame is decoded: the
    /// result is the latest frame start plus the last frame's length, or,
    /// when no frame had a timestamp, the length of all samples. The first
    /// step is a seek to the start.
    pub fn scan_exact(state: &PlaybackState, source_info: &SourceAudioInfo, fast_mode: bool) -> (r:
        (ScanRun, ScanAction))
        ensures
            r.0.fast() == fast_mode,
            r.0.rate() == source_info.sample_rate,
            state.current_pts matches Some(d) ==> r.0.origin() == d,
            state.current_pts is None ==> duration_nanos(r.0.origin()) == 0,
            Self::fresh(r.0),
            r.1 matches ScanAction::SeekTo(z) && duration_nanos(z) == 0,
    {
        let origin = match state.current_pts {
            Some(d) => d,
            None => duration_from_micros(0),
        };
        Self::scan_from(origin, source_info.sample_rate, fast_mode)
    }

    /// Whether a scan has found nothing yet and is not returning.
    pub open spec fn fresh(run: ScanRun) -> bool {
        &&& !run.returning()
        &&& run.max_micros() is None
        &&& run.last_micros() == 0
        &&& run.total() == 0
        &&& run.error() is None
    }

    /// Starts a scan that returns to `origin`, its frame lengths counted at
    /// `sample_rate`.
    pub fn scan_from(origin: Duration, sample_rate: i32, fast_mode: bool) -> (r: (
        ScanRun,
        ScanAction,
    ))
        ensures
            r.0.fast() == fast_mode,
            r.0.rate() == sample_rate,
            r.0.origin() == origin,
            Self::fresh(r.0),
            r.1 matches ScanAction::SeekTo(z) && duration_nanos(z) == 0,
    {
        (
            ScanRun {
                fast_mode,
                sample_rate,
                original_position: origin,
                returning: false,
                max_pts_us: None,
                last_frame_duration_us: 0,
                total_samples: 0,
                scan_error: None,
            },
            ScanAction::SeekTo(duration_from_micros(0)),
        )
    }
}

/// `v`, or `i64::MAX` when it is larger.
pub open spec fn clamp_i64_spec(v: int) -> int {
    if v > i64::MAX {
        i64::MAX as int
    } else {
        v
    }
}

/// `v`, or `i64::MAX` when it is larger.
fn clamp_i64(v: u128) -> (r: i64)
    ensures
        r == clamp_i64_spec(v as int),
{
    if v > i64::MAX as u128 {
        i64::MAX
    } else {
        v as i64
    }
}

/// `a + b`, clamped to the range of `i64`.
fn saturating_add(a: i64, b: i64) -> (r: i64)
    ensures
        r == crate::frame::saturating_add_i64(a as int, b as int),
{
    let s: i128 = a as i128 + b as i128;
    if s > i64::MAX as i128 {
        i64::MAX
    } else if s < i64::MIN as i128 {
        i64::MIN
    } else {
        s as i64
    }
}

/// Once a pull has found the decoder drained, the stream has ended: the
/// next pull gives nothing at once and changes nothing.
pub proof fn lemma_end_is_final(
    st0: PlaybackState,
    st1: PlaybackState,
    a1: PullAction,
    st2: PlaybackState,
    a2: PullAction,
)
    requires
        pull_step(st0, PullEvent::Received(Ok(None)), st1, a1),
        pull_step(st1, PullEvent::Start, st2, a2),
    ensures
        a1 matches PullAction::Done(Ok(None)),
        st1.is_exhausted,
        a2 matches PullAction::Done(Ok(None)),
        st2 == st1,
{
}

/// The frame a seek stops at is the next frame handed out: the next pull
/// takes it (the decoder's current frame) and hands it out, and its
/// timestamp becomes current; until then no timestamp is current.
pub proof fn lemma_pull_after_seek(
    run: SeekRun,
    st0: PlaybackState,
    raw: RawFrame,
    st1: PlaybackState,
    a1: SeekAction,
    st2: PlaybackState,
    a2: PullAction,
    st3: PlaybackState,
    a3: PullAction,
)
    requires
        seek_pull_step(run, st0, Ok(Some(pulled_frame(raw, st0.time_base))), st1, a1),
        seek_stops_at(pulled_frame(raw, st0.time_base), run.target_micros(), run.rate()),
        pull_step(st1, PullEvent::Start, st2, a2),
        pull_step(st2, PullEvent::BufferedFrame(raw), st3, a3),
    ensures
        a1 == SeekAction::Done(Ok(())),
        st1.current_pts is None,
        a2 is TakeBufferedFrame,
        delivers(a3, raw, st0.time_base),
        pts_matches(st3.current_pts, pulled_frame(raw, st0.time_base).pts_nanos_spec()),
        !st3.has_buffered_seek_frame,
        !st3.is_exhausted,
{
}

/// A packet-level scan finds the latest end of its packets: after any
/// packets, from the latest time `m` (none, or not below zero), the latest
/// time is none only when it was none and no packet counted; else it is at
/// least `m` and every counted packet's end, and it is `m` or one of those
/// ends.
pub proof fn lemma_packet_scan_latest_end(m: Option<i64>, ps: Seq<PacketTiming>, tb: TimeBase)
    requires
        or_zero(m) >= 0,
    ensures
        packets_max(m, ps, tb) is None <==> m is None && forall|i: int|
            0 <= i < ps.len() ==> !packet_counts(#[trigger] ps[i], tb),
        packets_max(m, ps, tb) is Some ==> {
            let r = or_zero(packets_max(m, ps, tb));
            &&& r >= or_zero(m)
            &&& forall|i: int|
                0 <= i < ps.len() && packet_counts(#[trigger] ps[i], tb) ==> tb.micros(
                    packet_end(ps[i]),
                ) <= r
            &&& r == or_zero(m) || exists|i: int|
                0 <= i < ps.len() && packet_counts(#[trigger] ps[i], tb) && tb.micros(
                    packet_end(ps[i]),
                ) == r
        },
    decreases ps.len(),
{
    if ps.len() > 0 {
        let m1 = packet_step_max(m, ps[0], tb);
        let rest = ps.drop_first();
        lemma_packet_scan_latest_end(m1, rest, tb);
        assert forall|i: int| 0 <= i < rest.len() implies #[trigger] rest[i] == ps[i + 1] by {}
        assert forall|i: int| 1 <= i < ps.len() implies #[trigger] ps[i] == rest[i - 1] by {}
        let r = packets_max(m, ps, tb);
        if r is Some {
            let rv = or_zero(r);
            assert forall|i: int|
                0 <= i < ps.len() && packet_counts(#[trigger] ps[i], tb) implies tb.micros(
                packet_end(ps[i]),
            ) <= rv by {
                if i > 0 {
                    assert(rest[i - 1] == ps[i]);
                }
            }
            if rv != or_zero(m) {
                if rv == or_zero(m1) {
                    assert(packet_counts(ps[0], tb));
                } else {
                    let j = choose|j: int|
                        0 <= j < rest.len() && packet_counts(#[trigger] rest[j], tb) && tb.micros(
                            packet_end(rest[j]),
                        ) == rv;
                    assert(ps[j + 1] == rest[j]);
                }
            }
        } else {
            assert forall|i: int| 0 <= i < ps.len() implies !packet_counts(#[trigger] ps[i], tb) by {
                if i > 0 {
                    assert(rest[i - 1] == ps[i]);
                }
            }
        }
        if m is None && forall|i: int| 0 <= i < ps.len() ==> !packet_counts(#[trigger] ps[i], tb) {
            assert(!packet_counts(ps[0], tb));
            assert forall|i: int| 0 <= i < rest.len() implies !packet_counts(#[trigger] rest[i], tb) by {
                assert(ps[i + 1] == rest[i]);
            }
        }
    }
}

/// A seek stops at the first frame it pulls that has no timestamp, whatever
/// the target and the rate: the seek ends there with that frame left for the
/// next pull (the stream has not ended, no timestamp is current), and the
/// next pull takes that frame.
pub proof fn lemma_seek_stops_at_untimed_frame(
    run: SeekRun,
    st0: PlaybackState,
    f: AudioFrame,
    st1: PlaybackState,
    a1: SeekAction,
    st2: PlaybackState,
    a2: PullAction,
)
    requires
        f.raw().pts == AV_NOPTS_VALUE,
        seek_pull_step(run, st0, Ok(Some(f)), st1, a1),
        pull_step(st1, PullEvent::Start, st2, a2),
    ensures
        a1 == SeekAction::Done(Ok(())),
        st1.has_buffered_seek_frame,
        !st1.is_exhausted,
        st1.current_pts is None,
        a2 is TakeBufferedFrame,
{
}

/// A seek drops a frame with a timestamp exactly when the frame ends
/// before the target: its start (in whole microseconds) plus its samples at
/// the run's rate (in whole microseconds) is below the target; a frame that
/// reaches the target ends the seek and is left for the next pull.
pub proof fn lemma_seek_drops_frames_that_end_before_the_target(
    run: SeekRun,
    st0: PlaybackState,
    f: AudioFrame,
    n: int,
    st1: PlaybackState,
    a: SeekAction,
)
    requires
        f.pts_nanos_spec() == Some(n),
        run.rate() > 0,
        seek_pull_step(run, st0, Ok(Some(f)), st1, a),
    ensures
        n / 1000 + f.samples_spec() * 1_000_000 / run.rate() < run.target_micros() ==> a is Pull
            && st1 == st0,
        n / 1000 + f.samples_spec() * 1_000_000 / run.rate() >= run.target_micros() ==> a
            == SeekAction::Done(Ok(())) && st1.has_buffered_seek_frame && st1.current_pts is None,
{
}

} // verus!
