//! FFmpeg error codes built from four-character tags and POSIX errno values.

use vstd::prelude::*;

verus! {

/// The little-endian `u32` formed by four bytes.
pub open spec fn le_u32(b0: u8, b1: u8, b2: u8, b3: u8) -> int {
    b0 + 256 * b1 + 65536 * b2 + 16777216 * b3
}

/// Reinterprets a value in `0..2^32` as a two's complement `i32`.
pub open spec fn wrap_i32(v: int) -> int {
    if v >= 0x8000_0000 {
        v - 0x1_0000_0000
    } else {
        v
    }
}

/// The error code for the tag `b0 b1 b2 b3`: the tag read as a little-endian
/// `u32`, reinterpreted as `i32`, then negated.
pub open spec fn tag_error(b0: u8, b1: u8, b2: u8, b3: u8) -> int {
    -wrap_i32(le_u32(b0, b1, b2, b3))
}

/// Builds an FFmpeg error code from a four-byte tag.
///
/// The one tag that cannot be negated (`00 00 00 80`, whose value is
/// `i32::MIN`) is excluded.
pub fn fferr(tag: &[u8; 4]) -> (r: i32)
    requires
        le_u32(tag@[0], tag@[1], tag@[2], tag@[3]) != 0x8000_0000,
    ensures
        r == tag_error(tag@[0], tag@[1], tag@[2], tag@[3]),
{
    let v: i64 = tag[0] as i64 + (tag[1] as i64) * 256 + (tag[2] as i64) * 65536 + (tag[3] as i64)
        * 16777216;
    let signed: i64 = if v >= 0x8000_0000 {
        v - 0x1_0000_0000
    } else {
        v
    };
    (-signed) as i32
}

/// Builds an FFmpeg error code from a three-byte tag prefixed by the byte `0xF8`.
pub fn fferr_f8(tag: &[u8; 3]) -> (r: i32)
    ensures
        r == tag_error(0xF8, tag@[0], tag@[1], tag@[2]),
{
    let bytes: [u8; 4] = [0xF8, tag[0], tag[1], tag[2]];
    fferr(&bytes)
}

/// End of file (`fferr(b"EOF ")`).
pub const AVERROR_EOF: i32 = -0x2046_4F45;

/// Invalid data found when processing input (`fferr(b"INDA")`).
pub const AVERROR_INVALIDDATA: i32 = -0x4144_4E49;

/// Decoder not found (`fferr_f8(b"DEC")`).
pub const AVERROR_DECODER_NOT_FOUND: i32 = -0x4345_44F8;

/// Passing this as the "whence" parameter to a seek function causes it to
/// return the file size without seeking anywhere.
pub const AVSEEK_SIZE: i32 = 0x10000;

/// OR'ing this flag into the "whence" parameter enables force-seeking.
pub const AVSEEK_FORCE: i32 = 0x20000;

/// The named tag error codes are the values of their tags.
pub proof fn lemma_named_error_codes()
    ensures
        AVERROR_EOF == tag_error(0x45, 0x4F, 0x46, 0x20),
        AVERROR_INVALIDDATA == tag_error(0x49, 0x4E, 0x44, 0x41),
        AVERROR_DECODER_NOT_FOUND == tag_error(0xF8, 0x44, 0x45, 0x43),
        AVERROR_EOF < 0 && AVERROR_INVALIDDATA < 0 && AVERROR_DECODER_NOT_FOUND < 0,
{
}

/// `libc::EDOM`, the platform's "argument out of domain" errno.
///
/// Its value, and even its sign, differ between targets (it is negative on
/// Haiku), so nothing is stated of it.
#[verifier::external_body]
fn posix_edom() -> i32 {
    libc::EDOM
}

/// `libc::EDOM` and `libc::EAGAIN` ("resource temporarily unavailable").
///
/// Their values differ between targets; on every target that libc defines
/// them for, both are positive, or (Haiku) both negative, and `EAGAIN` is
/// none of the tag codes `AVERROR_EOF`, `AVERROR_INVALIDDATA`,
/// `AVERROR_DECODER_NOT_FOUND`, nor their negations (its values are 6, 11,
/// 35, 36, 1073741859 and -2147483637). Nothing more is stated of them.
#[verifier::external_body]
fn posix_edom_and_eagain() -> (r: (i32, i32))
    ensures
        (r.0 > 0 && r.1 > 0) || (r.0 < 0 && r.1 < 0),
        r.1 != AVERROR_EOF && r.1 != -AVERROR_EOF,
        r.1 != AVERROR_INVALIDDATA && r.1 != -AVERROR_INVALIDDATA,
        r.1 != AVERROR_DECODER_NOT_FOUND && r.1 != -AVERROR_DECODER_NOT_FOUND,
{
    (libc::EDOM, libc::EAGAIN)
}

/// `libc::EDOM` and `libc::ENOMEM` ("out of memory").
///
/// Their values differ between targets; on every target that libc defines
/// them for, both are positive, or (Haiku) both negative. Nothing more is
/// stated of them.
#[verifier::external_body]
fn posix_edom_and_enomem() -> (r: (i32, i32))
    ensures
        (r.0 > 0 && r.1 > 0) || (r.0 < 0 && r.1 < 0),
{
    (libc::EDOM, libc::ENOMEM)
}

/// What `averror` and `avunerror` compute on a platform whose `EDOM` is `edom`:
/// errno values are negated where they are positive (`edom > 0`), kept otherwise.
pub open spec fn spec_errno_flip(edom: int, e: int) -> int {
    if edom > 0 {
        -e
    } else {
        e
    }
}

/// Converts between a POSIX errno and an FFmpeg error code, given the
/// platform's `EDOM`.
pub fn errno_flip(edom: i32, e: i32) -> (r: i32)
    requires
        edom > 0 ==> e != i32::MIN,
    ensures
        r == spec_errno_flip(edom as int, e as int),
{
    if edom > 0 {
        -e
    } else {
        e
    }
}

/// Returns a negative error code from a POSIX error code, to return from
/// library functions.
pub fn averror(e: i32) -> (r: i32)
    requires
        e != i32::MIN,
    ensures
        r == e || r == -e,
{
    errno_flip(posix_edom(), e)
}

/// Returns a POSIX error code from a library function error return value.
pub fn avunerror(e: i32) -> (r: i32)
    requires
        e != i32::MIN,
    ensures
        r == e || r == -e,
{
    errno_flip(posix_edom(), e)
}

/// `AVERROR(EAGAIN)`: the FFmpeg error code for "resource temporarily
/// unavailable", negative on every platform and distinct from the tag codes.
pub fn averror_eagain() -> (r: i32)
    ensures
        r < 0,
        r != AVERROR_EOF,
        r != AVERROR_INVALIDDATA,
        r != AVERROR_DECODER_NOT_FOUND,
{
    let (edom, e) = posix_edom_and_eagain();
    errno_flip(edom, e)
}

/// `AVERROR(ENOMEM)`: the FFmpeg error code for "not enough space",
/// negative on every platform.
pub fn averror_enomem() -> (r: i32)
    ensures
        r < 0,
{
    let (edom, e) = posix_edom_and_enomem();
    errno_flip(edom, e)
}

/// On any one platform, converting an errno to an error code and back gives
/// the errno.
pub proof fn lemma_errno_flip_roundtrip(edom: int, e: int)
    ensures
        spec_errno_flip(edom, spec_errno_flip(edom, e)) == e,
{
}

} // verus!
