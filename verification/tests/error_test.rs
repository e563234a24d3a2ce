use ffmpeg_audio::consts::{
    averror, averror_eagain, averror_enomem, avunerror, errno_flip, fferr, fferr_f8,
    AVERROR_DECODER_NOT_FOUND, AVERROR_EOF, AVERROR_INVALIDDATA,
};
use ffmpeg_audio::error::{message_from_c_buffer, AudioError};

#[test]
fn tag_codes_match_their_constants() {
    assert_eq!(fferr(b"EOF "), AVERROR_EOF);
    assert_eq!(fferr(b"INDA"), AVERROR_INVALIDDATA);
    assert_eq!(fferr_f8(b"DEC"), AVERROR_DECODER_NOT_FOUND);
    assert_eq!(AVERROR_EOF, -541_478_725);
    assert_eq!(AVERROR_INVALIDDATA, -1_094_995_529);
    assert_eq!(AVERROR_DECODER_NOT_FOUND, -1_128_613_112);
}

#[test]
fn tags_with_the_high_bit_wrap() {
    // 0xFF_FF_FF_FF reads as -1, negated: 1
    assert_eq!(fferr(&[0xFF, 0xFF, 0xFF, 0xFF]), 1);
    assert_eq!(fferr(&[0, 0, 0, 0]), 0);
}

#[test]
fn errno_conversion() {
    assert_eq!(errno_flip(33, 11), -11);
    assert_eq!(errno_flip(-5, 11), 11);
    assert_eq!(errno_flip(33, errno_flip(33, 12)), 12);
    // on this platform errno values are positive
    assert_eq!(averror(libc::EAGAIN), -libc::EAGAIN);
    assert_eq!(avunerror(averror(libc::ENOMEM)), libc::ENOMEM);
    assert_eq!(averror_eagain(), -libc::EAGAIN);
    assert_eq!(averror_enomem(), -libc::ENOMEM);
}

#[test]
fn c_buffer_messages() {
    assert_eq!(message_from_c_buffer(b"Invalid argument\0garbage"), "Invalid argument");
    assert_eq!(message_from_c_buffer(b"\0"), "");
    assert_eq!(
        message_from_c_buffer(b"no terminator"),
        "Unknown FFmpeg error when parsing C string"
    );
    // invalid UTF-8 is replaced, not dropped
    assert_eq!(message_from_c_buffer(b"a\xFFb\0"), "a\u{FFFD}b");
}

#[test]
fn codes_become_errors() {
    assert!(matches!(AudioError::from_ffmpeg(AVERROR_EOF, b"End of file\0"), AudioError::Eof));
    assert!(matches!(
        AudioError::from_ffmpeg(averror_eagain(), b"Resource temporarily unavailable\0"),
        AudioError::Eagain
    ));
    match AudioError::from_ffmpeg(AVERROR_INVALIDDATA, b"Invalid data found when processing input\0") {
        AudioError::FFmpeg(code, msg) => {
            assert_eq!(code, AVERROR_INVALIDDATA);
            assert_eq!(msg, "Invalid data found when processing input");
        }
        other => panic!("unexpected {other:?}"),
    }
    match AudioError::from_code(-7, -7, b"x\0") {
        AudioError::Eagain => {}
        other => panic!("unexpected {other:?}"),
    }
}
