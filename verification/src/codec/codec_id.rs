//! Codec identifiers and their foreign enumerator codes.
//!
//! The supported set is the PCM family the layer is built for.  A
//! foreign code outside it is reported as `UnsupportedCodec` rather
//! than guessed at.

use vstd::prelude::*;

use crate::error::Error;
use crate::util::media;

verus! {

/// A codec identifier from the supported subset of the foreign
/// enumeration.
#[allow(non_camel_case_types)]
#[derive(Debug, Clone, Copy, PartialEq, Eq, Hash, Structural)]
pub enum CodecId {
    NONE,
    PCM_S16LE,
    PCM_S16BE,
    PCM_U16LE,
    PCM_U16BE,
    PCM_S8,
    PCM_U8,
    PCM_MULAW,
    PCM_ALAW,
    PCM_S32LE,
    PCM_S32BE,
    PCM_U32LE,
    PCM_U32BE,
    PCM_S24LE,
    PCM_S24BE,
    PCM_U24LE,
    PCM_U24BE,
    PCM_S24DAUD,
    PCM_ZORK,
    PCM_S16LE_PLANAR,
    PCM_DVD,
    PCM_F32BE,
    PCM_F32LE,
    PCM_F64BE,
    PCM_F64LE,
    PCM_BLURAY,
    PCM_LXF,
    S302M,
    PCM_S8_PLANAR,
    PCM_S24LE_PLANAR,
    PCM_S32LE_PLANAR,
    PCM_S16BE_PLANAR,
    PCM_S64LE,
    PCM_S64BE,
}

impl CodecId {
    /// The foreign enumerator for this identifier.
    pub open spec fn spec_code(self) -> u32 {
        match self {
            CodecId::NONE => 0,
            CodecId::PCM_S16LE => 65536,
            CodecId::PCM_S16BE => 65537,
            CodecId::PCM_U16LE => 65538,
            CodecId::PCM_U16BE => 65539,
            CodecId::PCM_S8 => 65540,
            CodecId::PCM_U8 => 65541,
            CodecId::PCM_MULAW => 65542,
            CodecId::PCM_ALAW => 65543,
            CodecId::PCM_S32LE => 65544,
            CodecId::PCM_S32BE => 65545,
            CodecId::PCM_U32LE => 65546,
            CodecId::PCM_U32BE => 65547,
            CodecId::PCM_S24LE => 65548,
            CodecId::PCM_S24BE => 65549,
            CodecId::PCM_U24LE => 65550,
            CodecId::PCM_U24BE => 65551,
            CodecId::PCM_S24DAUD => 65552,
            CodecId::PCM_ZORK => 65553,
            CodecId::PCM_S16LE_PLANAR => 65554,
            CodecId::PCM_DVD => 65555,
            CodecId::PCM_F32BE => 65556,
            CodecId::PCM_F32LE => 65557,
            CodecId::PCM_F64BE => 65558,
            CodecId::PCM_F64LE => 65559,
            CodecId::PCM_BLURAY => 65560,
            CodecId::PCM_LXF => 65561,
            CodecId::S302M => 65562,
            CodecId::PCM_S8_PLANAR => 65563,
            CodecId::PCM_S24LE_PLANAR => 65564,
            CodecId::PCM_S32LE_PLANAR => 65565,
            CodecId::PCM_S16BE_PLANAR => 65566,
            CodecId::PCM_S64LE => 65567,
            CodecId::PCM_S64BE => 65568,
        }
    }

    /// The identifier a foreign enumerator stands for, when it lies in
    /// the supported subset.
    pub open spec fn spec_from_code(c: u32) -> Option<CodecId> {
                if c == 0 {
            Some(CodecId::NONE)
        } else if c == 65536 {
            Some(CodecId::PCM_S16LE)
        } else if c == 65537 {
            Some(CodecId::PCM_S16BE)
        } else if c == 65538 {
            Some(CodecId::PCM_U16LE)
        } else if c == 65539 {
            Some(CodecId::PCM_U16BE)
        } else if c == 65540 {
            Some(CodecId::PCM_S8)
        } else if c == 65541 {
            Some(CodecId::PCM_U8)
        } else if c == 65542 {
            Some(CodecId::PCM_MULAW)
        } else if c == 65543 {
            Some(CodecId::PCM_ALAW)
        } else if c == 65544 {
            Some(CodecId::PCM_S32LE)
        } else if c == 65545 {
            Some(CodecId::PCM_S32BE)
        } else if c == 65546 {
            Some(CodecId::PCM_U32LE)
        } else if c == 65547 {
            Some(CodecId::PCM_U32BE)
        } else if c == 65548 {
            Some(CodecId::PCM_S24LE)
        } else if c == 65549 {
            Some(CodecId::PCM_S24BE)
        } else if c == 65550 {
            Some(CodecId::PCM_U24LE)
        } else if c == 65551 {
            Some(CodecId::PCM_U24BE)
        } else if c == 65552 {
            Some(CodecId::PCM_S24DAUD)
        } else if c == 65553 {
            Some(CodecId::PCM_ZORK)
        } else if c == 65554 {
            Some(CodecId::PCM_S16LE_PLANAR)
        } else if c == 65555 {
            Some(CodecId::PCM_DVD)
        } else if c == 65556 {
            Some(CodecId::PCM_F32BE)
        } else if c == 65557 {
            Some(CodecId::PCM_F32LE)
        } else if c == 65558 {
            Some(CodecId::PCM_F64BE)
        } else if c == 65559 {
            Some(CodecId::PCM_F64LE)
        } else if c == 65560 {
            Some(CodecId::PCM_BLURAY)
        } else if c == 65561 {
            Some(CodecId::PCM_LXF)
        } else if c == 65562 {
            Some(CodecId::S302M)
        } else if c == 65563 {
            Some(CodecId::PCM_S8_PLANAR)
        } else if c == 65564 {
            Some(CodecId::PCM_S24LE_PLANAR)
        } else if c == 65565 {
            Some(CodecId::PCM_S32LE_PLANAR)
        } else if c == 65566 {
            Some(CodecId::PCM_S16BE_PLANAR)
        } else if c == 65567 {
            Some(CodecId::PCM_S64LE)
        } else if c == 65568 {
            Some(CodecId::PCM_S64BE)
        } else {
            None
        }
    }

    /// The short name the foreign library publishes for this
    /// identifier.
    pub open spec fn spec_name(self) -> Seq<char> {
        match self {
            CodecId::NONE => "none"@,
            CodecId::PCM_S16LE => "pcm_s16le"@,
            CodecId::PCM_S16BE => "pcm_s16be"@,
            CodecId::PCM_U16LE => "pcm_u16le"@,
            CodecId::PCM_U16BE => "pcm_u16be"@,
            CodecId::PCM_S8 => "pcm_s8"@,
            CodecId::PCM_U8 => "pcm_u8"@,
            CodecId::PCM_MULAW => "pcm_mulaw"@,
            CodecId::PCM_ALAW => "pcm_alaw"@,
            CodecId::PCM_S32LE => "pcm_s32le"@,
            CodecId::PCM_S32BE => "pcm_s32be"@,
            CodecId::PCM_U32LE => "pcm_u32le"@,
            CodecId::PCM_U32BE => "pcm_u32be"@,
            CodecId::PCM_S24LE => "pcm_s24le"@,
            CodecId::PCM_S24BE => "pcm_s24be"@,
            CodecId::PCM_U24LE => "pcm_u24le"@,
            CodecId::PCM_U24BE => "pcm_u24be"@,
            CodecId::PCM_S24DAUD => "pcm_s24daud"@,
            CodecId::PCM_ZORK => "pcm_zork"@,
            CodecId::PCM_S16LE_PLANAR => "pcm_s16le_planar"@,
            CodecId::PCM_DVD => "pcm_dvd"@,
            CodecId::PCM_F32BE => "pcm_f32be"@,
            CodecId::PCM_F32LE => "pcm_f32le"@,
            CodecId::PCM_F64BE => "pcm_f64be"@,
            CodecId::PCM_F64LE => "pcm_f64le"@,
            CodecId::PCM_BLURAY => "pcm_bluray"@,
            CodecId::PCM_LXF => "pcm_lxf"@,
            CodecId::S302M => "s302m"@,
            CodecId::PCM_S8_PLANAR => "pcm_s8_planar"@,
            CodecId::PCM_S24LE_PLANAR => "pcm_s24le_planar"@,
            CodecId::PCM_S32LE_PLANAR => "pcm_s32le_planar"@,
            CodecId::PCM_S16BE_PLANAR => "pcm_s16be_planar"@,
            CodecId::PCM_S64LE => "pcm_s64le"@,
            CodecId::PCM_S64BE => "pcm_s64be"@,
        }
    }

    /// The kind of content this codec carries: every supported
    /// identifier but `NONE` is an audio codec.
    pub open spec fn spec_medium(self) -> media::Type {
        if self == CodecId::NONE {
            media::Type::Unknown
        } else {
            media::Type::Audio
        }
    }

    /// Encode this identifier as its foreign enumerator.
    pub fn code(self) -> (c: u32)
        ensures
            c == self.spec_code(),
    {
        match self {
            CodecId::NONE => 0,
            CodecId::PCM_S16LE => 65536,
            CodecId::PCM_S16BE => 65537,
            CodecId::PCM_U16LE => 65538,
            CodecId::PCM_U16BE => 65539,
            CodecId::PCM_S8 => 65540,
            CodecId::PCM_U8 => 65541,
            CodecId::PCM_MULAW => 65542,
            CodecId::PCM_ALAW => 65543,
            CodecId::PCM_S32LE => 65544,
            CodecId::PCM_S32BE => 65545,
            CodecId::PCM_U32LE => 65546,
            CodecId::PCM_U32BE => 65547,
            CodecId::PCM_S24LE => 65548,
            CodecId::PCM_S24BE => 65549,
            CodecId::PCM_U24LE => 65550,
            CodecId::PCM_U24BE => 65551,
            CodecId::PCM_S24DAUD => 65552,
            CodecId::PCM_ZORK => 65553,
            CodecId::PCM_S16LE_PLANAR => 65554,
            CodecId::PCM_DVD => 65555,
            CodecId::PCM_F32BE => 65556,
            CodecId::PCM_F32LE => 65557,
            CodecId::PCM_F64BE => 65558,
            CodecId::PCM_F64LE => 65559,
            CodecId::PCM_BLURAY => 65560,
            CodecId::PCM_LXF => 65561,
            CodecId::S302M => 65562,
            CodecId::PCM_S8_PLANAR => 65563,
            CodecId::PCM_S24LE_PLANAR => 65564,
            CodecId::PCM_S32LE_PLANAR => 65565,
            CodecId::PCM_S16BE_PLANAR => 65566,
            CodecId::PCM_S64LE => 65567,
            CodecId::PCM_S64BE => 65568,
        }
    }

    /// Decode a foreign enumerator; a code outside the supported
    /// subset is refused as `UnsupportedCodec`, exactly when
    /// `spec_from_code` has no identifier for it.
    pub fn from_code(c: u32) -> (r: Result<CodecId, Error>)
        ensures
            match r {
                Ok(id) => CodecId::spec_from_code(c) == Some(id),
                Err(e) => CodecId::spec_from_code(c) is None && e == Error::UnsupportedCodec(c),
            },
    {
        match CodecId::from_code_opt(c) {
            Some(id) => Ok(id),
            None => Err(Error::UnsupportedCodec(c)),
        }
    }

    /// Decode a foreign enumerator to an identifier, if supported.
    pub fn from_code_opt(c: u32) -> (r: Option<CodecId>)
        ensures
            r == CodecId::spec_from_code(c),
    {
        if c == 0 {
            Some(CodecId::NONE)
        } else if c == 65536 {
            Some(CodecId::PCM_S16LE)
        } else if c == 65537 {
            Some(CodecId::PCM_S16BE)
        } else if c == 65538 {
            Some(CodecId::PCM_U16LE)
        } else if c == 65539 {
            Some(CodecId::PCM_U16BE)
        } else if c == 65540 {
            Some(CodecId::PCM_S8)
        } else if c == 65541 {
            Some(CodecId::PCM_U8)
        } else if c == 65542 {
            Some(CodecId::PCM_MULAW)
        } else if c == 65543 {
            Some(CodecId::PCM_ALAW)
        } else if c == 65544 {
            Some(CodecId::PCM_S32LE)
        } else if c == 65545 {
            Some(CodecId::PCM_S32BE)
        } else if c == 65546 {
            Some(CodecId::PCM_U32LE)
        } else if c == 65547 {
            Some(CodecId::PCM_U32BE)
        } else if c == 65548 {
            Some(CodecId::PCM_S24LE)
        } else if c == 65549 {
            Some(CodecId::PCM_S24BE)
        } else if c == 65550 {
            Some(CodecId::PCM_U24LE)
        } else if c == 65551 {
            Some(CodecId::PCM_U24BE)
        } else if c == 65552 {
            Some(CodecId::PCM_S24DAUD)
        } else if c == 65553 {
            Some(CodecId::PCM_ZORK)
        } else if c == 65554 {
            Some(CodecId::PCM_S16LE_PLANAR)
        } else if c == 65555 {
            Some(CodecId::PCM_DVD)
        } else if c == 65556 {
            Some(CodecId::PCM_F32BE)
        } else if c == 65557 {
            Some(CodecId::PCM_F32LE)
        } else if c == 65558 {
            Some(CodecId::PCM_F64BE)
        } else if c == 65559 {
            Some(CodecId::PCM_F64LE)
        } else if c == 65560 {
            Some(CodecId::PCM_BLURAY)
        } else if c == 65561 {
            Some(CodecId::PCM_LXF)
        } else if c == 65562 {
            Some(CodecId::S302M)
        } else if c == 65563 {
            Some(CodecId::PCM_S8_PLANAR)
        } else if c == 65564 {
            Some(CodecId::PCM_S24LE_PLANAR)
        } else if c == 65565 {
            Some(CodecId::PCM_S32LE_PLANAR)
        } else if c == 65566 {
            Some(CodecId::PCM_S16BE_PLANAR)
        } else if c == 65567 {
            Some(CodecId::PCM_S64LE)
        } else if c == 65568 {
            Some(CodecId::PCM_S64BE)
        } else {
            None
        }
    }

    /// The kind of content this codec carries.
    pub fn medium(&self) -> (t: media::Type)
        ensures
            t == self.spec_medium(),
    {
        if matches!(self, CodecId::NONE) {
            media::Type::Unknown
        } else {
            media::Type::Audio
        }
    }

    /// The short name the foreign library publishes for this
    /// identifier.
    pub fn name(&self) -> (r: &'static str)
        ensures
            r@ == self.spec_name(),
    {
        match self {
            CodecId::NONE => "none",
            CodecId::PCM_S16LE => "pcm_s16le",
            CodecId::PCM_S16BE => "pcm_s16be",
            CodecId::PCM_U16LE => "pcm_u16le",
            CodecId::PCM_U16BE => "pcm_u16be",
            CodecId::PCM_S8 => "pcm_s8",
            CodecId::PCM_U8 => "pcm_u8",
            CodecId::PCM_MULAW => "pcm_mulaw",
            CodecId::PCM_ALAW => "pcm_alaw",
            CodecId::PCM_S32LE => "pcm_s32le",
            CodecId::PCM_S32BE => "pcm_s32be",
            CodecId::PCM_U32LE => "pcm_u32le",
            CodecId::PCM_U32BE => "pcm_u32be",
            CodecId::PCM_S24LE => "pcm_s24le",
            CodecId::PCM_S24BE => "pcm_s24be",
            CodecId::PCM_U24LE => "pcm_u24le",
            CodecId::PCM_U24BE => "pcm_u24be",
            CodecId::PCM_S24DAUD => "pcm_s24daud",
            CodecId::PCM_ZORK => "pcm_zork",
            CodecId::PCM_S16LE_PLANAR => "pcm_s16le_planar",
            CodecId::PCM_DVD => "pcm_dvd",
            CodecId::PCM_F32BE => "pcm_f32be",
            CodecId::PCM_F32LE => "pcm_f32le",
            CodecId::PCM_F64BE => "pcm_f64be",
            CodecId::PCM_F64LE => "pcm_f64le",
            CodecId::PCM_BLURAY => "pcm_bluray",
            CodecId::PCM_LXF => "pcm_lxf",
            CodecId::S302M => "s302m",
            CodecId::PCM_S8_PLANAR => "pcm_s8_planar",
            CodecId::PCM_S24LE_PLANAR => "pcm_s24le_planar",
            CodecId::PCM_S32LE_PLANAR => "pcm_s32le_planar",
            CodecId::PCM_S16BE_PLANAR => "pcm_s16be_planar",
            CodecId::PCM_S64LE => "pcm_s64le",
            CodecId::PCM_S64BE => "pcm_s64be",
        }
    }
}

/// The name published for a codec identifier.  The model's registry
/// names every supported identifier.
pub fn avcodec_get_name(id: CodecId) -> (r: Option<String>)
    ensures
        match r {
            Some(s) => s@ == id.spec_name(),
            None => false,
        },
{
    Some(id.name().to_owned())
}

/// Encoding a codec identifier and decoding it again gives the
/// identifier back, for every supported identifier.
pub proof fn lemma_codec_id_code_round_trip(id: CodecId)
    ensures
        CodecId::spec_from_code(id.spec_code()) == Some(id),
{
}

} // verus!
