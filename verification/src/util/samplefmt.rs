//! Audio sample formats: packed and planar variants of the base sample
//! encodings, with their foreign enumerator codes and names.

use vstd::prelude::*;

verus! {

/// An audio sample format.  The `..P` variants are planar (one plane
/// per channel); the others are packed (channels interleaved in one
/// plane).  `NONE` is the foreign library's "no format" marker.
#[derive(Copy, Clone, PartialEq, Eq, Debug, Structural)]
pub enum SampleFormat {
    NONE,
    U8,
    S16,
    S32,
    S64,
    FLT,
    DBL,
    U8P,
    S16P,
    S32P,
    S64P,
    FLTP,
    DBLP,
}

impl SampleFormat {
    /// The foreign enumerator for this format.
    pub open spec fn spec_code(self) -> i32 {
        match self {
            SampleFormat::NONE => (-1) as i32,
            SampleFormat::U8 => 0,
            SampleFormat::S16 => 1,
            SampleFormat::S32 => 2,
            SampleFormat::FLT => 3,
            SampleFormat::DBL => 4,
            SampleFormat::U8P => 5,
            SampleFormat::S16P => 6,
            SampleFormat::S32P => 7,
            SampleFormat::FLTP => 8,
            SampleFormat::DBLP => 9,
            SampleFormat::S64 => 10,
            SampleFormat::S64P => 11,
        }
    }

    /// The format a foreign enumerator stands for; codes outside the
    /// published enumeration mean `NONE`.
    pub open spec fn spec_from_code(c: i32) -> SampleFormat {
        if c == 0 {
            SampleFormat::U8
        } else if c == 1 {
            SampleFormat::S16
        } else if c == 2 {
            SampleFormat::S32
        } else if c == 3 {
            SampleFormat::FLT
        } else if c == 4 {
            SampleFormat::DBL
        } else if c == 5 {
            SampleFormat::U8P
        } else if c == 6 {
            SampleFormat::S16P
        } else if c == 7 {
            SampleFormat::S32P
        } else if c == 8 {
            SampleFormat::FLTP
        } else if c == 9 {
            SampleFormat::DBLP
        } else if c == 10 {
            SampleFormat::S64
        } else if c == 11 {
            SampleFormat::S64P
        } else {
            SampleFormat::NONE
        }
    }

    /// Whether samples sit one plane per channel.
    pub open spec fn spec_is_planar(self) -> bool {
        match self {
            SampleFormat::U8P
            | SampleFormat::S16P
            | SampleFormat::S32P
            | SampleFormat::S64P
            | SampleFormat::FLTP
            | SampleFormat::DBLP => true,
            _ => false,
        }
    }

    /// The packed variant of this format; packed formats and `NONE` map
    /// to themselves.
    pub open spec fn spec_packed(self) -> SampleFormat {
        match self {
            SampleFormat::U8P => SampleFormat::U8,
            SampleFormat::S16P => SampleFormat::S16,
            SampleFormat::S32P => SampleFormat::S32,
            SampleFormat::S64P => SampleFormat::S64,
            SampleFormat::FLTP => SampleFormat::FLT,
            SampleFormat::DBLP => SampleFormat::DBL,
            other => other,
        }
    }

    /// The planar variant of this format; planar formats and `NONE` map
    /// to themselves.
    pub open spec fn spec_planar(self) -> SampleFormat {
        match self {
            SampleFormat::U8 => SampleFormat::U8P,
            SampleFormat::S16 => SampleFormat::S16P,
            SampleFormat::S32 => SampleFormat::S32P,
            SampleFormat::S64 => SampleFormat::S64P,
            SampleFormat::FLT => SampleFormat::FLTP,
            SampleFormat::DBL => SampleFormat::DBLP,
            other => other,
        }
    }

    /// The name the foreign library publishes for this format.
    pub open spec fn spec_name(self) -> Seq<char> {
        match self {
            SampleFormat::NONE => ""@,
            SampleFormat::U8 => "u8"@,
            SampleFormat::S16 => "s16"@,
            SampleFormat::S32 => "s32"@,
            SampleFormat::S64 => "s64"@,
            SampleFormat::FLT => "flt"@,
            SampleFormat::DBL => "dbl"@,
            SampleFormat::U8P => "u8p"@,
            SampleFormat::S16P => "s16p"@,
            SampleFormat::S32P => "s32p"@,
            SampleFormat::S64P => "s64p"@,
            SampleFormat::FLTP => "fltp"@,
            SampleFormat::DBLP => "dblp"@,
        }
    }

    /// The format published under a name; `NONE` for any other name.
    pub open spec fn spec_from_name(s: Seq<char>) -> SampleFormat {
        if s == "u8"@ {
            SampleFormat::U8
        } else if s == "s16"@ {
            SampleFormat::S16
        } else if s == "s32"@ {
            SampleFormat::S32
        } else if s == "s64"@ {
            SampleFormat::S64
        } else if s == "flt"@ {
            SampleFormat::FLT
        } else if s == "dbl"@ {
            SampleFormat::DBL
        } else if s == "u8p"@ {
            SampleFormat::U8P
        } else if s == "s16p"@ {
            SampleFormat::S16P
        } else if s == "s32p"@ {
            SampleFormat::S32P
        } else if s == "s64p"@ {
            SampleFormat::S64P
        } else if s == "fltp"@ {
            SampleFormat::FLTP
        } else if s == "dblp"@ {
            SampleFormat::DBLP
        } else {
            SampleFormat::NONE
        }
    }

    /// Bytes each sample of one channel occupies; 0 for `NONE`.
    pub open spec fn spec_bytes(self) -> usize {
        match self {
            SampleFormat::NONE => 0,
            SampleFormat::U8 | SampleFormat::U8P => 1,
            SampleFormat::S16 | SampleFormat::S16P => 2,
            SampleFormat::S32 | SampleFormat::S32P => 4,
            SampleFormat::FLT | SampleFormat::FLTP => 4,
            SampleFormat::S64 | SampleFormat::S64P => 8,
            SampleFormat::DBL | SampleFormat::DBLP => 8,
        }
    }

    /// Encode this format as its foreign enumerator.
    pub fn code(self) -> (c: i32)
        ensures
            c == self.spec_code(),
    {
        match self {
            SampleFormat::NONE => -1,
            SampleFormat::U8 => 0,
            SampleFormat::S16 => 1,
            SampleFormat::S32 => 2,
            SampleFormat::FLT => 3,
            SampleFormat::DBL => 4,
            SampleFormat::U8P => 5,
            SampleFormat::S16P => 6,
            SampleFormat::S32P => 7,
            SampleFormat::FLTP => 8,
            SampleFormat::DBLP => 9,
            SampleFormat::S64 => 10,
            SampleFormat::S64P => 11,
        }
    }

    /// Decode a foreign enumerator.
    pub fn from_code(c: i32) -> (f: SampleFormat)
        ensures
            f == SampleFormat::spec_from_code(c),
    {
        if c == 0 {
            SampleFormat::U8
        } else if c == 1 {
            SampleFormat::S16
        } else if c == 2 {
            SampleFormat::S32
        } else if c == 3 {
            SampleFormat::FLT
        } else if c == 4 {
            SampleFormat::DBL
        } else if c == 5 {
            SampleFormat::U8P
        } else if c == 6 {
            SampleFormat::S16P
        } else if c == 7 {
            SampleFormat::S32P
        } else if c == 8 {
            SampleFormat::FLTP
        } else if c == 9 {
            SampleFormat::DBLP
        } else if c == 10 {
            SampleFormat::S64
        } else if c == 11 {
            SampleFormat::S64P
        } else {
            SampleFormat::NONE
        }
    }

    /// Whether samples sit one plane per channel.
    pub fn is_planar(&self) -> (r: bool)
        ensures
            r == self.spec_is_planar(),
    {
        match self {
            SampleFormat::U8P
            | SampleFormat::S16P
            | SampleFormat::S32P
            | SampleFormat::S64P
            | SampleFormat::FLTP
            | SampleFormat::DBLP => true,
            _ => false,
        }
    }

    /// Whether channels are interleaved in a single plane.
    pub fn is_packed(&self) -> (r: bool)
        ensures
            r == !self.spec_is_planar(),
    {
        !self.is_planar()
    }

    /// The packed variant of this format.
    pub fn packed(&self) -> (f: SampleFormat)
        ensures
            f == self.spec_packed(),
    {
        match self {
            SampleFormat::U8P => SampleFormat::U8,
            SampleFormat::S16P => SampleFormat::S16,
            SampleFormat::S32P => SampleFormat::S32,
            SampleFormat::S64P => SampleFormat::S64,
            SampleFormat::FLTP => SampleFormat::FLT,
            SampleFormat::DBLP => SampleFormat::DBL,
            other => *other,
        }
    }

    /// The planar variant of this format.
    pub fn planar(&self) -> (f: SampleFormat)
        ensures
            f == self.spec_planar(),
    {
        match self {
            SampleFormat::U8 => SampleFormat::U8P,
            SampleFormat::S16 => SampleFormat::S16P,
            SampleFormat::S32 => SampleFormat::S32P,
            SampleFormat::S64 => SampleFormat::S64P,
            SampleFormat::FLT => SampleFormat::FLTP,
            SampleFormat::DBL => SampleFormat::DBLP,
            other => *other,
        }
    }

    /// Bytes each sample of one channel occupies.
    pub fn bytes(&self) -> (n: usize)
        ensures
            n == self.spec_bytes(),
    {
        match self {
            SampleFormat::NONE => 0,
            SampleFormat::U8 | SampleFormat::U8P => 1,
            SampleFormat::S16 | SampleFormat::S16P => 2,
            SampleFormat::S32 | SampleFormat::S32P => 4,
            SampleFormat::FLT | SampleFormat::FLTP => 4,
            SampleFormat::S64 | SampleFormat::S64P => 8,
            SampleFormat::DBL | SampleFormat::DBLP => 8,
        }
    }
}

impl SampleFormat {
    /// The name the foreign library publishes for this format; the
    /// empty string for `NONE`, which the foreign call does not name.
    pub fn name(&self) -> (r: &'static str)
        ensures
            r@ == self.spec_name(),
    {
        match self {
            SampleFormat::NONE => "",
            SampleFormat::U8 => "u8",
            SampleFormat::S16 => "s16",
            SampleFormat::S32 => "s32",
            SampleFormat::S64 => "s64",
            SampleFormat::FLT => "flt",
            SampleFormat::DBL => "dbl",
            SampleFormat::U8P => "u8p",
            SampleFormat::S16P => "s16p",
            SampleFormat::S32P => "s32p",
            SampleFormat::S64P => "s64p",
            SampleFormat::FLTP => "fltp",
            SampleFormat::DBLP => "dblp",
        }
    }

    /// Look a format up by its published name, as the foreign
    /// name-to-format call does; an unknown name gives `NONE`.
    pub fn from_name(name: &str) -> (f: SampleFormat)
        ensures
            f == SampleFormat::spec_from_name(name@),
    {
        let n = name.to_owned();
        if n == "u8".to_owned() {
            SampleFormat::U8
        } else if n == "s16".to_owned() {
            SampleFormat::S16
        } else if n == "s32".to_owned() {
            SampleFormat::S32
        } else if n == "s64".to_owned() {
            SampleFormat::S64
        } else if n == "flt".to_owned() {
            SampleFormat::FLT
        } else if n == "dbl".to_owned() {
            SampleFormat::DBL
        } else if n == "u8p".to_owned() {
            SampleFormat::U8P
        } else if n == "s16p".to_owned() {
            SampleFormat::S16P
        } else if n == "s32p".to_owned() {
            SampleFormat::S32P
        } else if n == "s64p".to_owned() {
            SampleFormat::S64P
        } else if n == "fltp".to_owned() {
            SampleFormat::FLTP
        } else if n == "dblp".to_owned() {
            SampleFormat::DBLP
        } else {
            SampleFormat::NONE
        }
    }
}

/// Encoding a sample format and decoding it again gives the format
/// back, for every format.
pub proof fn lemma_sample_format_code_round_trip(f: SampleFormat)
    ensures
        SampleFormat::spec_from_code(f.spec_code()) == f,
{
}

/// The packed variant of any format other than `NONE` is packed, and
/// the planar variant is planar.
pub proof fn lemma_packed_planar_variants(f: SampleFormat)
    requires
        f != SampleFormat::NONE,
    ensures
        !f.spec_packed().spec_is_planar(),
        f.spec_planar().spec_is_planar(),
        f.spec_packed().spec_planar() == f.spec_planar(),
        f.spec_planar().spec_packed() == f.spec_packed(),
{
}

} // verus!
