# ffmpeg_audio

Audio decoding through FFmpeg, with the decisions verified.

FFmpeg does the demuxing, decoding and resampling. The library holds what is
decided around those calls, and Verus proves it:

- `reader`: the playback state machine. A pull, a seek and an exact-duration
  scan are each a machine of steps: from what the last demuxer or decoder call
  gave (a packet, a frame with or without a timestamp, "try again", end of
  stream, an error) to the next call to make, or to the result. The laws it
  keeps: the end of a stream is final; the frame a seek stops at is the next
  one handed out; a packet-level scan finds the latest packet end.
- `audio`, `engine`: `AudioReader` and `DecodeEngine`: what FFmpeg told of an
  opened stream (source information with its fallbacks, length, tags,
  attached picture) and the playback state, with the machines' steps.
- `frame`, `time`: frame timestamps (timeline origin, skipped leading
  samples) and stream time bases.
- `consts`, `error`: FFmpeg error codes and the library's error type.
- `format`, `resampler`, `layout`: sample formats, resampling targets and the
  decisions of one resampling step, channel layouts.

`app/` runs the machines against FFmpeg (through `ffmpeg-next`): it opens any
`Read + Seek` source as a stream, reads packets, decodes, seeks, resamples with
`swresample`, and gives the error type `Display` and `std::error::Error`.
