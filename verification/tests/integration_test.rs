use std::time::Duration;

use ffmpeg_audio::frame::{AudioFrame, RawFrame, AV_NOPTS_VALUE};
use ffmpeg_audio::reader::{PacketTiming, PullAction, PullEvent, ScanAction, ScanRun, SeekAction};
use ffmpeg_audio::time::Rational;
use ffmpeg_audio::{AudioCover, AudioError, AudioReader, DecodeEngine, ScanMode, StreamProbe};

/// What FFmpeg tells of a mono 16-bit PCM stream at 44100 Hz of
/// `duration_secs` seconds, in a WAVE file.
fn generate_sine_probe(duration_secs: f32) -> StreamProbe {
    let num_samples = (44100.0 * duration_secs) as i64;
    StreamProbe {
        time_base: Rational { num: 1, den: 44100 },
        duration: num_samples,
        sample_rate: 44100,
        channels: 1,
        codec_bit_rate: 705_600,
        container_bit_rate: 0,
        bits_per_raw_sample: 0,
        bits_per_coded_sample: 16,
        sample_fmt: Some("s16".to_string()),
        codec_name: Some("pcm_s16le".to_string()),
        metadata: Vec::new(),
        cover: None,
    }
}

/// A stand-in for FFmpeg's demuxer and decoder over a stream whose packets
/// each decode to one frame: packets of `block` samples, timestamps in
/// samples; `fail_packet` makes reading that packet fail.
struct FakeStream {
    frames: Vec<RawFrame>,
    packets: Vec<PacketTiming>,
    next: usize,
    pending: Option<RawFrame>,
    current: Option<RawFrame>,
    eof_sent: bool,
    fail_packet: Option<usize>,
}

impl FakeStream {
    fn new(total: i64, block: i64) -> FakeStream {
        let mut frames = Vec::new();
        let mut packets = Vec::new();
        let mut pts = 0;
        while pts < total {
            let n = block.min(total - pts);
            frames.push(RawFrame { nb_samples: n as i32, pts, sample_rate: 44100 });
            packets.push(PacketTiming { pts, duration: n });
            pts += n;
        }
        FakeStream { frames, packets, next: 0, pending: None, current: None, eof_sent: false, fail_packet: None }
    }

    fn invalid_data() -> AudioError {
        AudioError::FFmpeg(-0x4144_4E49, "Invalid data found when processing input".to_string())
    }

    fn receive(&mut self) -> Result<Option<RawFrame>, AudioError> {
        match self.pending.take() {
            Some(f) => {
                self.current = Some(f);
                Ok(Some(f))
            }
            None if self.eof_sent => Ok(None),
            None => Err(AudioError::Eagain),
        }
    }

    fn read(&mut self) -> Result<bool, AudioError> {
        if self.fail_packet == Some(self.next) {
            return Err(Self::invalid_data());
        }
        Ok(self.next < self.frames.len())
    }

    fn read_timing(&mut self) -> Result<Option<PacketTiming>, AudioError> {
        if self.fail_packet == Some(self.next) {
            return Err(Self::invalid_data());
        }
        if self.next < self.packets.len() {
            self.next += 1;
            Ok(Some(self.packets[self.next - 1]))
        } else {
            Ok(None)
        }
    }

    fn send(&mut self) -> Result<(), AudioError> {
        self.pending = Some(self.frames[self.next]);
        self.next += 1;
        Ok(())
    }

    fn send_eof(&mut self) -> Result<(), AudioError> {
        self.eof_sent = true;
        Ok(())
    }

    /// The demuxer's seek: to the packet that holds `target`.
    fn seek(&mut self, target: Duration) -> Result<(), AudioError> {
        let t = (target.as_micros() as i64) * 44100 / 1_000_000;
        self.next = self.frames.iter().position(|f| f.pts + f.nb_samples as i64 > t).unwrap_or(self.frames.len());
        Ok(())
    }

    fn flush(&mut self) {
        self.pending = None;
        self.eof_sent = false;
    }
}

fn pull(reader: &mut AudioReader, s: &mut FakeStream) -> Result<Option<AudioFrame>, AudioError> {
    let mut ev = PullEvent::Start;
    loop {
        ev = match reader.receive_frame(ev) {
            PullAction::TakeBufferedFrame => PullEvent::BufferedFrame(s.current.unwrap()),
            PullAction::ReceiveFrame => PullEvent::Received(s.receive()),
            PullAction::ReadPacket => PullEvent::PacketRead(s.read()),
            PullAction::SendPacket => PullEvent::Sent(s.send()),
            PullAction::SendEof => PullEvent::Sent(s.send_eof()),
            PullAction::Done(r) => return r,
        }
    }
}

fn seek(reader: &mut AudioReader, s: &mut FakeStream, target: Duration) -> Result<(), AudioError> {
    let run = reader.seek(target);
    let mut action = reader.seek_on_demuxer(&run, s.seek(target));
    loop {
        match action {
            SeekAction::FlushAndPull => {
                s.flush();
                let r = pull(reader, s);
                action = reader.seek_on_pull(&run, r);
            }
            SeekAction::Pull => {
                let r = pull(reader, s);
                action = reader.seek_on_pull(&run, r);
            }
            SeekAction::Done(r) => return r,
        }
    }
}

fn scan(reader: &mut AudioReader, s: &mut FakeStream, fast: bool) -> Result<Option<Duration>, AudioError> {
    let (mut run, mut action): (ScanRun, ScanAction) = reader.scan_exact_duration(fast);
    loop {
        action = match action {
            ScanAction::SeekTo(t) => {
                let r = seek(reader, s, t);
                let left = if reader.has_buffered_seek_frame() {
                    s.current.map(|raw| AudioFrame::new(raw, reader.time_base()))
                } else {
                    None
                };
                run.on_seek(r, left)
            }
            ScanAction::ReadPacket => {
                let r = s.read_timing();
                run.on_packet(r, reader.time_base())
            }
            ScanAction::Pull => {
                let r = pull(reader, s);
                run.on_pull(r)
            }
            ScanAction::Done(r) => return r,
        };
    }
}

#[test]
fn test_audio_duration() {
    let probe = generate_sine_probe(2.0);

    let reader = AudioReader::new(probe).unwrap();
    let duration = reader.duration().expect("应能拿到 WAV 时长");
    let secs = duration.as_secs_f64();
    assert!((1.99..=2.01).contains(&secs), "时长应约为 2s，实际 {secs}");
}

#[test]
fn test_current_playback_time_initially_none() {
    let probe = generate_sine_probe(1.0);
    let reader = AudioReader::new(probe).unwrap();

    assert!(
        reader.current_playback_time().is_none(),
        "解码开始前，current_playback_time 应为 None"
    );
}

#[test]
fn duration_of_the_stream_in_microseconds() {
    let reader = AudioReader::new(generate_sine_probe(2.0)).unwrap();
    assert_eq!(reader.duration(), Some(Duration::from_micros(2_000_000)));
    // 100 samples: 2267.57 us, rounded to the nearest
    let mut p = generate_sine_probe(1.0);
    p.duration = 100;
    assert_eq!(AudioReader::new(p).unwrap().duration(), Some(Duration::from_micros(2268)));
    let mut p = generate_sine_probe(1.0);
    p.duration = AV_NOPTS_VALUE;
    assert_eq!(AudioReader::new(p).unwrap().duration(), None);
}

#[test]
fn source_info_prefers_the_codec_bit_rate_and_raw_bits() {
    let reader = AudioReader::new(generate_sine_probe(1.0)).unwrap();
    let info = reader.source_info();
    assert_eq!(info.sample_rate, 44100);
    assert_eq!(info.channels, 1);
    assert_eq!(info.bit_rate, 705_600);
    assert_eq!(info.sample_fmt.as_deref(), Some("s16"));
    assert_eq!(info.codec_name.as_deref(), Some("pcm_s16le"));
    assert_eq!(info.bits_per_sample, 16);

    let mut p = generate_sine_probe(1.0);
    p.codec_bit_rate = 0;
    p.container_bit_rate = 128_000;
    p.bits_per_raw_sample = 24;
    let reader = AudioReader::new(p).unwrap();
    assert_eq!(reader.source_info().bit_rate, 128_000);
    assert_eq!(reader.source_info().bits_per_sample, 24);
}

#[test]
fn a_time_base_that_is_not_positive_is_invalid_data() {
    let mut p = generate_sine_probe(1.0);
    p.time_base = Rational { num: 1, den: 0 };
    match AudioReader::new(p) {
        Err(AudioError::FFmpeg(code, msg)) => {
            assert_eq!(code, -0x4144_4E49);
            assert_eq!(msg, "Invalid data found when processing input");
        }
        _ => panic!("expected invalid data"),
    }
    assert!(DecodeEngine::new(Rational { num: 0, den: 1 }, 44100).is_err());
}

#[test]
fn metadata_and_cover_are_those_ffmpeg_gave() {
    let mut p = generate_sine_probe(1.0);
    p.metadata = vec![
        ("title".to_string(), "Sine".to_string()),
        ("artist".to_string(), "Test".to_string()),
    ];
    p.cover = Some(AudioCover { data: vec![0x89, b'P', b'N', b'G'], mime_type: Some("image/png".to_string()) });
    let reader = AudioReader::new(p).unwrap();
    assert_eq!(
        reader.metadata(),
        vec![("title".to_string(), "Sine".to_string()), ("artist".to_string(), "Test".to_string())]
    );
    let cover = reader.cover().unwrap();
    assert_eq!(cover.data, vec![0x89, b'P', b'N', b'G']);
    assert_eq!(cover.mime_type.as_deref(), Some("image/png"));

    let reader = AudioReader::new(generate_sine_probe(1.0)).unwrap();
    assert!(reader.metadata().is_empty());
    assert!(reader.cover().is_none());
}

#[test]
fn frames_come_in_order_and_the_stream_ends() {
    let mut reader = AudioReader::new(generate_sine_probe(0.1)).unwrap();
    let mut s = FakeStream::new(4410, 1024);
    let mut pts = Vec::new();
    while let Some(f) = pull(&mut reader, &mut s).unwrap() {
        pts.push(f.as_raw().pts);
        assert_eq!(reader.current_playback_time(), f.pts());
    }
    assert_eq!(pts, vec![0, 1024, 2048, 3072, 4096]);
    // the end is final
    assert!(pull(&mut reader, &mut s).unwrap().is_none());
    // 4096 / 44100 s = 92879.8 us -> 92880 us
    assert_eq!(reader.current_playback_time(), Some(Duration::from_micros(92_880)));
}

#[test]
fn a_decoder_error_ends_the_pull_with_it() {
    let mut reader = AudioReader::new(generate_sine_probe(0.1)).unwrap();
    let mut s = FakeStream::new(4410, 1024);
    s.fail_packet = Some(1);
    assert!(pull(&mut reader, &mut s).unwrap().is_some());
    match pull(&mut reader, &mut s) {
        Err(AudioError::FFmpeg(code, _)) => assert_eq!(code, -0x4144_4E49),
        _ => panic!("expected the read error"),
    }
    // the timestamp stays that of the last frame
    assert_eq!(reader.current_playback_time(), Some(Duration::ZERO));
}

#[test]
fn seek_leaves_the_frame_that_holds_the_target() {
    let mut reader = AudioReader::new(generate_sine_probe(0.1)).unwrap();
    let mut s = FakeStream::new(4410, 1024);
    pull(&mut reader, &mut s).unwrap();
    // 50 ms = block 2205, in the frame at 2048
    seek(&mut reader, &mut s, Duration::from_millis(50)).unwrap();
    assert!(reader.current_playback_time().is_none());
    let f = pull(&mut reader, &mut s).unwrap().unwrap();
    assert_eq!(f.as_raw().pts, 2048);
    // 2048 / 44100 s = 46439.9 us -> 46440 us
    assert_eq!(reader.current_playback_time(), Some(Duration::from_micros(46_440)));
}

#[test]
fn seek_drops_frames_that_end_before_the_target() {
    let mut reader = AudioReader::new(generate_sine_probe(0.1)).unwrap();
    let mut s = FakeStream::new(4410, 1024);
    // the demuxer lands early: at the start; the seek decodes past 1024 and 2048
    let run = reader.seek(Duration::from_millis(70));
    let mut action = reader.seek_on_demuxer(&run, Ok(()));
    s.next = 0;
    let mut dropped = 0;
    loop {
        match action {
            SeekAction::FlushAndPull | SeekAction::Pull => {
                s.flush();
                let r = pull(&mut reader, &mut s);
                action = reader.seek_on_pull(&run, r);
                dropped += 1;
            }
            SeekAction::Done(r) => {
                r.unwrap();
                break;
            }
        }
    }
    // 70 ms: the frame at 2048 ends at 3072 samples = 69659 us < 70000; the one at 3072 reaches it
    assert_eq!(dropped, 4);
    assert_eq!(pull(&mut reader, &mut s).unwrap().unwrap().as_raw().pts, 3072);
}

#[test]
fn seek_past_the_end_ends_the_stream() {
    let mut reader = AudioReader::new(generate_sine_probe(0.1)).unwrap();
    let mut s = FakeStream::new(4410, 1024);
    seek(&mut reader, &mut s, Duration::from_secs(5)).unwrap();
    assert!(reader.current_playback_time().is_none());
    assert!(pull(&mut reader, &mut s).unwrap().is_none());
}

#[test]
fn a_failed_demuxer_seek_changes_nothing() {
    let mut reader = AudioReader::new(generate_sine_probe(0.1)).unwrap();
    let mut s = FakeStream::new(4410, 1024);
    pull(&mut reader, &mut s).unwrap();
    let run = reader.seek(Duration::from_millis(50));
    match reader.seek_on_demuxer(&run, Err(AudioError::Eof)) {
        SeekAction::Done(Err(AudioError::Eof)) => {}
        _ => panic!("expected the seek's error"),
    }
    assert_eq!(reader.current_playback_time(), Some(Duration::ZERO));
}

#[test]
fn packet_scan_finds_the_end_of_the_last_packet() {
    let mut reader = AudioReader::new(generate_sine_probe(2.0)).unwrap();
    let mut s = FakeStream::new(88200, 2048);
    let d = scan(&mut reader, &mut s, true).unwrap();
    assert_eq!(d, Some(Duration::from_micros(2_000_000)));
    // the scan went back to the start
    assert_eq!(pull(&mut reader, &mut s).unwrap().unwrap().as_raw().pts, 0);
}

#[test]
fn packet_scan_of_a_single_packet_finds_its_end() {
    let mut reader = AudioReader::new(generate_sine_probe(1.0)).unwrap();
    let mut s = FakeStream::new(100, 2048);
    // the frame the seek to the start left: 100 / 44100 s = 2267.57 us -> 2267 us
    assert_eq!(scan(&mut reader, &mut s, true).unwrap(), Some(Duration::from_micros(2267)));
}

#[test]
fn frame_scan_adds_the_last_frame_length() {
    let mut reader = AudioReader::new(generate_sine_probe(2.0)).unwrap();
    let mut s = FakeStream::new(88200, 2048);
    let d = scan(&mut reader, &mut s, false).unwrap().unwrap();
    // the last frame starts at 88064 (1996916.1 us -> 1996916) with 136 samples (3083.9 us -> 3083)
    assert_eq!(d, Duration::from_micros(1_996_916 + 3_083));
}

#[test]
fn scan_returns_to_the_current_position() {
    let mut reader = AudioReader::new(generate_sine_probe(2.0)).unwrap();
    let mut s = FakeStream::new(88200, 2048);
    pull(&mut reader, &mut s).unwrap();
    let second = pull(&mut reader, &mut s).unwrap().unwrap();
    scan(&mut reader, &mut s, true).unwrap();
    assert!(reader.current_playback_time().is_none());
    let next = pull(&mut reader, &mut s).unwrap().unwrap();
    assert_eq!(next.as_raw(), second.as_raw());
}

#[test]
fn a_read_error_fails_the_scan_after_it_returns() {
    let mut reader = AudioReader::new(generate_sine_probe(2.0)).unwrap();
    let mut s = FakeStream::new(88200, 2048);
    s.fail_packet = Some(10);
    assert!(scan(&mut reader, &mut s, true).is_err());
    s.fail_packet = None;
    // back at the start
    assert_eq!(pull(&mut reader, &mut s).unwrap().unwrap().as_raw().pts, 0);
}

#[test]
fn empty_stream_scans_to_nothing() {
    let mut reader = AudioReader::new(generate_sine_probe(0.0)).unwrap();
    let mut s = FakeStream::new(0, 2048);
    assert_eq!(scan(&mut reader, &mut s, false).unwrap(), None);
    assert_eq!(scan(&mut reader, &mut s, true).unwrap(), None);
    assert!(pull(&mut reader, &mut s).unwrap().is_none());
}

#[test]
fn frames_without_timestamps_scan_to_their_samples() {
    let mut run_and_action = DecodeEngine::new(Rational { num: 1, den: 44100 }, 44100)
        .unwrap()
        .scan_duration(ScanMode::Frame, None);
    let run = &mut run_and_action.0;
    assert!(matches!(run.on_seek(Ok(()), None), ScanAction::Pull));
    let tb = ffmpeg_audio::time::TimeBase::try_new(Rational { num: 1, den: 44100 }).unwrap();
    for _ in 0..2 {
        let f = AudioFrame::new(RawFrame { nb_samples: 22050, pts: AV_NOPTS_VALUE, sample_rate: 44100 }, tb);
        assert!(matches!(run.on_pull(Ok(Some(f))), ScanAction::Pull));
    }
    assert!(matches!(run.on_pull(Ok(None)), ScanAction::SeekTo(_)));
    match run.on_seek(Ok(()), None) {
        ScanAction::Done(Ok(d)) => assert_eq!(d, Some(Duration::from_secs(1))),
        _ => panic!("expected a duration"),
    }
}

#[test]
fn engine_scan_returns_to_the_frame_a_seek_left() {
    let mut engine = DecodeEngine::new(Rational { num: 1, den: 44100 }, 44100).unwrap();
    let (run, action) = engine.scan_duration(ScanMode::Packet, None);
    assert_eq!(run.origin_position(), Duration::ZERO);
    assert!(matches!(action, ScanAction::SeekTo(t) if t == Duration::ZERO));
    // a seek to 50 ms stops at the frame at 2048, which it leaves
    let seek = engine.seek(Duration::from_millis(50));
    assert!(matches!(engine.seek_on_demuxer(&seek, Ok(())), SeekAction::FlushAndPull));
    let raw = RawFrame { nb_samples: 1024, pts: 2048, sample_rate: 44100 };
    let frame = AudioFrame::new(raw, engine.time_base());
    assert!(matches!(engine.seek_on_pull(&seek, Ok(Some(frame))), SeekAction::Done(Ok(()))));
    assert!(engine.has_buffered_seek_frame());
    assert_eq!(engine.stream_position(), None);
    // a scan returns to that frame: 2048 / 44100 s = 46439.9 us -> 46440 us
    let (run, _) = engine.scan_duration(ScanMode::Frame, Some(raw));
    assert_eq!(run.origin_position(), Duration::from_micros(46_440));
    // the next pull hands the frame out
    assert!(matches!(engine.receive_frame(PullEvent::Start), PullAction::TakeBufferedFrame));
    match engine.receive_frame(PullEvent::BufferedFrame(raw)) {
        PullAction::Done(Ok(Some(f))) => assert_eq!(f.as_raw(), raw),
        _ => panic!("expected the frame"),
    }
    assert_eq!(engine.stream_position(), Some(Duration::from_micros(46_440)));
}
