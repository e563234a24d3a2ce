//! Sample formats and the Rust sample types bound to them.

use vstd::prelude::*;

verus! {

/// An audio sample format (FFmpeg's `AVSampleFormat`); the `P` variants are
/// planar, one plane per channel.
#[derive(Clone, Copy, Debug, PartialEq, Eq, Structural)]
pub enum SampleFormat {
    U8,
    S16,
    S32,
    Flt,
    Dbl,
    U8P,
    S16P,
    S32P,
    FltP,
    DblP,
    S64,
    S64P,
}

/// The short name of a sample format, as FFmpeg's `av_get_sample_fmt_name`.
pub open spec fn sample_format_name(f: SampleFormat) -> Seq<char> {
    match f {
        SampleFormat::U8 => "u8"@,
        SampleFormat::S16 => "s16"@,
        SampleFormat::S32 => "s32"@,
        SampleFormat::Flt => "flt"@,
        SampleFormat::Dbl => "dbl"@,
        SampleFormat::U8P => "u8p"@,
        SampleFormat::S16P => "s16p"@,
        SampleFormat::S32P => "s32p"@,
        SampleFormat::FltP => "fltp"@,
        SampleFormat::DblP => "dblp"@,
        SampleFormat::S64 => "s64"@,
        SampleFormat::S64P => "s64p"@,
    }
}

/// Whether a sample format is planar (one plane per channel), as FFmpeg's
/// `av_sample_fmt_is_planar`.
pub open spec fn is_planar_spec(f: SampleFormat) -> bool {
    match f {
        SampleFormat::U8P | SampleFormat::S16P | SampleFormat::S32P | SampleFormat::FltP
        | SampleFormat::DblP | SampleFormat::S64P => true,
        _ => false,
    }
}

impl SampleFormat {
    /// Whether this format is planar.
    pub fn is_planar(self) -> (r: bool)
        ensures
            r == is_planar_spec(self),
    {
        match self {
            SampleFormat::U8P | SampleFormat::S16P | SampleFormat::S32P | SampleFormat::FltP
            | SampleFormat::DblP | SampleFormat::S64P => true,
            _ => false,
        }
    }

    /// The short name of this format (`"s16"`, `"flt"`, ...).
    pub fn name(self) -> (s: String)
        ensures
            s@ == sample_format_name(self),
    {
        proof {
            reveal_strlit("u8");
            reveal_strlit("s16");
            reveal_strlit("s32");
            reveal_strlit("flt");
            reveal_strlit("dbl");
            reveal_strlit("u8p");
            reveal_strlit("s16p");
            reveal_strlit("s32p");
            reveal_strlit("fltp");
            reveal_strlit("dblp");
            reveal_strlit("s64");
            reveal_strlit("s64p");
        }
        match self {
            SampleFormat::U8 => "u8".to_owned(),
            SampleFormat::S16 => "s16".to_owned(),
            SampleFormat::S32 => "s32".to_owned(),
            SampleFormat::Flt => "flt".to_owned(),
            SampleFormat::Dbl => "dbl".to_owned(),
            SampleFormat::U8P => "u8p".to_owned(),
            SampleFormat::S16P => "s16p".to_owned(),
            SampleFormat::S32P => "s32p".to_owned(),
            SampleFormat::FltP => "fltp".to_owned(),
            SampleFormat::DblP => "dblp".to_owned(),
            SampleFormat::S64 => "s64".to_owned(),
            SampleFormat::S64P => "s64p".to_owned(),
        }
    }
}

/// A Rust numeric type bound to the packed sample format that holds it.
pub trait AudioSample: Copy + Sized {
    const FORMAT: SampleFormat;
}

impl AudioSample for i16 {
    const FORMAT: SampleFormat = SampleFormat::S16;
}

impl AudioSample for i32 {
    const FORMAT: SampleFormat = SampleFormat::S32;
}

impl AudioSample for u8 {
    const FORMAT: SampleFormat = SampleFormat::U8;
}

/// A sample format is planar exactly when FFmpeg's name for it ends in
/// `p` (`u8p`, `s16p`, `s32p`, `fltp`, `dblp`, `s64p`); every other format is
/// packed.
pub proof fn lemma_planar_iff_name_ends_in_p(f: SampleFormat)
    ensures
        is_planar_spec(f) <==> sample_format_name(f).last() == 'p',
        sample_format_name(f).len() >= 2,
{
    reveal_strlit("u8");
    reveal_strlit("s16");
    reveal_strlit("s32");
    reveal_strlit("flt");
    reveal_strlit("dbl");
    reveal_strlit("u8p");
    reveal_strlit("s16p");
    reveal_strlit("s32p");
    reveal_strlit("fltp");
    reveal_strlit("dblp");
    reveal_strlit("s64");
    reveal_strlit("s64p");
}

} // verus!
