//! The decisions of an FFmpeg audio decoding pipeline: FFmpeg error codes,
//! stream time bases, frame timing, what is known of an opened stream, and
//! the playback state machine (pull, seek, exact-duration scan) whose steps
//! say which demuxer or decoder call to make next, from what the last one
//! gave.

pub mod audio;
pub mod consts;
pub mod engine;
pub mod error;
pub mod format;
pub mod frame;
pub mod layout;
pub mod reader;
pub mod resampler;
pub mod time;

pub use audio::{AudioCover, AudioReader, SourceAudioInfo, StreamProbe};
pub use engine::{DecodeEngine, ScanMode};
pub use error::{AudioError, Result};
pub use format::{AudioSample, SampleFormat};
pub use frame::AudioFrame;
pub use resampler::ResampleOptions;
