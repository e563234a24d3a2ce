//! The error type of the library and the reading of FFmpeg error codes.

use vstd::prelude::*;

use crate::consts::{averror_eagain, AVERROR_DECODER_NOT_FOUND, AVERROR_EOF, AVERROR_INVALIDDATA};

verus! {

/// `std::io::Error`, carried by `AudioError::Io`.
#[verifier::external_type_specification]
#[verifier::external_body]
pub struct ExIoError(std::io::Error);

/// Errors of decoding, seeking and resampling.
#[derive(Debug)]
pub enum AudioError {
    /// End of file.
    Eof,
    /// Resource temporarily unavailable: more input is needed.
    Eagain,
    /// An FFmpeg error code with its description.
    FFmpeg(i32, String),
    /// An I/O error of the source.
    Io(std::io::Error),
    /// The requested sample type does not match the resampler output format.
    FormatMismatch,
    /// An invalid parameter, with its description.
    InvalidParameter(String),
}

/// A `Result` whose error is an [`AudioError`].
pub type Result<T> = std::result::Result<T, AudioError>;

/// The text of a byte sequence decoded as UTF-8, each invalid sequence
/// replaced by U+FFFD (what `String::from_utf8_lossy` returns).
pub uninterp spec fn utf8_lossy(bytes: Seq<u8>) -> Seq<char>;

/// `String::from_utf8_lossy`, as an owned `String`.
///
/// The result is named by `utf8_lossy`; of valid UTF-8 the documentation
/// states that it is returned unchanged, which is the second clause.
#[verifier::external_body]
pub(crate) fn string_from_utf8_lossy(bytes: &[u8]) -> (s: String)
    ensures
        s@ == utf8_lossy(bytes@),
        vstd::utf8::valid_utf8(bytes@) ==> s@ == vstd::utf8::decode_utf8(bytes@),
{
    String::from_utf8_lossy(bytes).into_owned()
}

/// Whether `i` is the position of the first NUL byte of `buf`.
pub open spec fn is_first_nul(buf: Seq<u8>, i: int) -> bool {
    &&& 0 <= i < buf.len()
    &&& buf[i] == 0
    &&& forall|j: int| 0 <= j < i ==> buf[j] != 0
}

/// The message for a description buffer that holds no NUL byte.
pub open spec fn unterminated_message() -> Seq<char> {
    "Unknown FFmpeg error when parsing C string"@
}

/// The text of a NUL-terminated description buffer: the bytes before the
/// first NUL, decoded lossily; a fixed message when there is no NUL.
pub open spec fn c_message(buf: Seq<u8>) -> Seq<char> {
    if exists|i: int| is_first_nul(buf, i) {
        utf8_lossy(buf.take(choose|i: int| is_first_nul(buf, i)))
    } else {
        unterminated_message()
    }
}

/// Reads the description that FFmpeg's `av_strerror` wrote into `buf`.
pub fn message_from_c_buffer(buf: &[u8]) -> (s: String)
    ensures
        s@ == c_message(buf@),
{
    let mut i: usize = 0;
    while i < buf.len()
        invariant
            0 <= i <= buf@.len(),
            forall|j: int| 0 <= j < i ==> buf@[j] != 0,
        decreases buf@.len() - i,
    {
        if buf[i] == 0 {
            assert(is_first_nul(buf@, i as int));
            let ghost k = choose|k: int| is_first_nul(buf@, k);
            assert(k == i as int) by {
                if k < i {
                    assert(buf@[k] != 0);
                } else if k > i {
                    assert(buf@[i as int] != 0);
                }
            }
            let prefix = vstd::slice::slice_subrange(buf, 0, i);
            assert(prefix@ == buf@.take(i as int));
            return string_from_utf8_lossy(prefix);
        }
        i = i + 1;
    }
    assert(!exists|k: int| is_first_nul(buf@, k));
    proof {
        reveal_strlit("Unknown FFmpeg error when parsing C string");
    }
    "Unknown FFmpeg error when parsing C string".to_owned()
}

/// The description FFmpeg gives `AVERROR_INVALIDDATA`.
pub open spec fn invalid_data_text() -> Seq<char> {
    "Invalid data found when processing input"@
}

/// The error FFmpeg reports for data it cannot use.
pub fn invalid_data_error() -> (e: AudioError)
    ensures
        e.view_error() == AudioErrorView::FFmpeg(AVERROR_INVALIDDATA, invalid_data_text()),
{
    proof {
        reveal_strlit("Invalid data found when processing input");
    }
    AudioError::FFmpeg(AVERROR_INVALIDDATA, "Invalid data found when processing input".to_owned())
}

impl AudioError {
    /// The error for an FFmpeg code on a platform whose "resource temporarily
    /// unavailable" code is `eagain_code`, with the description FFmpeg wrote
    /// into `strerror_buf`.
    pub open spec fn from_code_spec(code: i32, eagain_code: i32, buf: Seq<u8>) -> AudioErrorView {
        if code == AVERROR_EOF {
            AudioErrorView::Eof
        } else if code == eagain_code {
            AudioErrorView::Eagain
        } else {
            AudioErrorView::FFmpeg(code, c_message(buf))
        }
    }

    /// The plain value of this error (an I/O error shows as `Io`).
    pub open spec fn view_error(self) -> AudioErrorView {
        match self {
            AudioError::Eof => AudioErrorView::Eof,
            AudioError::Eagain => AudioErrorView::Eagain,
            AudioError::FFmpeg(c, m) => AudioErrorView::FFmpeg(c, m@),
            AudioError::Io(_) => AudioErrorView::Io,
            AudioError::FormatMismatch => AudioErrorView::FormatMismatch,
            AudioError::InvalidParameter(m) => AudioErrorView::InvalidParameter(m@),
        }
    }

    /// Turns an FFmpeg error code into an error, given the platform's
    /// `AVERROR(EAGAIN)` and the description FFmpeg wrote for the code.
    pub fn from_code(code: i32, eagain_code: i32, strerror_buf: &[u8]) -> (e: AudioError)
        ensures
            e.view_error() == Self::from_code_spec(code, eagain_code, strerror_buf@),
    {
        if code == AVERROR_EOF {
            AudioError::Eof
        } else if code == eagain_code {
            AudioError::Eagain
        } else {
            AudioError::FFmpeg(code, message_from_c_buffer(strerror_buf))
        }
    }

    /// Turns an FFmpeg error code into an error: end of file, "try again",
    /// or the code with the description FFmpeg wrote into `strerror_buf`.
    pub fn from_ffmpeg(code: i32, strerror_buf: &[u8]) -> (e: AudioError)
        ensures
            code == AVERROR_EOF ==> e is Eof,
            code != AVERROR_EOF ==> (e is Eagain || e.view_error() == AudioErrorView::FFmpeg(
                code,
                c_message(strerror_buf@),
            )),
            code == AVERROR_INVALIDDATA || code == AVERROR_DECODER_NOT_FOUND || code >= 0
                ==> e.view_error() == AudioErrorView::FFmpeg(code, c_message(strerror_buf@)),
    {
        Self::from_code(code, averror_eagain(), strerror_buf)
    }
}

/// The plain value of an [`AudioError`].
pub ghost enum AudioErrorView {
    Eof,
    Eagain,
    FFmpeg(i32, Seq<char>),
    Io,
    FormatMismatch,
    InvalidParameter(Seq<char>),
}

} // verus!
