//! Frame side data: extra per-frame information the foreign library
//! attaches beside the sample buffers.

use vstd::prelude::*;

use crate::util::dict::{DictRef, Dictionary};

verus! {

/// The kind of a piece of frame side data, mirroring the foreign
/// enumeration.
#[allow(non_camel_case_types)]
#[derive(Eq, PartialEq, Copy, Clone, Debug, Structural)]
pub enum FrameSideDataType {
    PANSCAN,
    A53_CC,
    STEREO3D,
    MATRIXENCODING,
    DOWNMIX_INFO,
    REPLAYGAIN,
    DISPLAYMATRIX,
    AFD,
    MOTION_VECTORS,
    SKIP_SAMPLES,
    AUDIO_SERVICE_TYPE,
    MASTERING_DISPLAY_METADATA,
    GOP_TIMECODE,
    SPHERICAL,
    CONTENT_LIGHT_LEVEL,
    ICC_PROFILE,
    S12M_TIMECODE,
    DYNAMIC_HDR_PLUS,
    REGIONS_OF_INTEREST,
    VIDEO_ENC_PARAMS,
    SEI_UNREGISTERED,
    FILM_GRAIN_PARAMS,
    DETECTION_BBOXES,
    DOVI_RPU_BUFFER,
    DOVI_METADATA,
    DYNAMIC_HDR_VIVID,
    AMBIENT_VIEWING_ENVIRONMENT,
}

impl FrameSideDataType {
    /// The foreign enumerator for this kind.
    pub open spec fn spec_code(self) -> i32 {
        match self {
            FrameSideDataType::PANSCAN => 0,
            FrameSideDataType::A53_CC => 1,
            FrameSideDataType::STEREO3D => 2,
            FrameSideDataType::MATRIXENCODING => 3,
            FrameSideDataType::DOWNMIX_INFO => 4,
            FrameSideDataType::REPLAYGAIN => 5,
            FrameSideDataType::DISPLAYMATRIX => 6,
            FrameSideDataType::AFD => 7,
            FrameSideDataType::MOTION_VECTORS => 8,
            FrameSideDataType::SKIP_SAMPLES => 9,
            FrameSideDataType::AUDIO_SERVICE_TYPE => 10,
            FrameSideDataType::MASTERING_DISPLAY_METADATA => 11,
            FrameSideDataType::GOP_TIMECODE => 12,
            FrameSideDataType::SPHERICAL => 13,
            FrameSideDataType::CONTENT_LIGHT_LEVEL => 14,
            FrameSideDataType::ICC_PROFILE => 15,
            FrameSideDataType::S12M_TIMECODE => 16,
            FrameSideDataType::DYNAMIC_HDR_PLUS => 17,
            FrameSideDataType::REGIONS_OF_INTEREST => 18,
            FrameSideDataType::VIDEO_ENC_PARAMS => 19,
            FrameSideDataType::SEI_UNREGISTERED => 20,
            FrameSideDataType::FILM_GRAIN_PARAMS => 21,
            FrameSideDataType::DETECTION_BBOXES => 22,
            FrameSideDataType::DOVI_RPU_BUFFER => 23,
            FrameSideDataType::DOVI_METADATA => 24,
            FrameSideDataType::DYNAMIC_HDR_VIVID => 25,
            FrameSideDataType::AMBIENT_VIEWING_ENVIRONMENT => 26,
        }
    }

    /// The kind a foreign enumerator stands for, when it lies in the
    /// published enumeration.
    pub open spec fn spec_from_code(c: i32) -> Option<FrameSideDataType> {
                if c == 0 {
            Some(FrameSideDataType::PANSCAN)
        } else if c == 1 {
            Some(FrameSideDataType::A53_CC)
        } else if c == 2 {
            Some(FrameSideDataType::STEREO3D)
        } else if c == 3 {
            Some(FrameSideDataType::MATRIXENCODING)
        } else if c == 4 {
            Some(FrameSideDataType::DOWNMIX_INFO)
        } else if c == 5 {
            Some(FrameSideDataType::REPLAYGAIN)
        } else if c == 6 {
            Some(FrameSideDataType::DISPLAYMATRIX)
        } else if c == 7 {
            Some(FrameSideDataType::AFD)
        } else if c == 8 {
            Some(FrameSideDataType::MOTION_VECTORS)
        } else if c == 9 {
            Some(FrameSideDataType::SKIP_SAMPLES)
        } else if c == 10 {
            Some(FrameSideDataType::AUDIO_SERVICE_TYPE)
        } else if c == 11 {
            Some(FrameSideDataType::MASTERING_DISPLAY_METADATA)
        } else if c == 12 {
            Some(FrameSideDataType::GOP_TIMECODE)
        } else if c == 13 {
            Some(FrameSideDataType::SPHERICAL)
        } else if c == 14 {
            Some(FrameSideDataType::CONTENT_LIGHT_LEVEL)
        } else if c == 15 {
            Some(FrameSideDataType::ICC_PROFILE)
        } else if c == 16 {
            Some(FrameSideDataType::S12M_TIMECODE)
        } else if c == 17 {
            Some(FrameSideDataType::DYNAMIC_HDR_PLUS)
        } else if c == 18 {
            Some(FrameSideDataType::REGIONS_OF_INTEREST)
        } else if c == 19 {
            Some(FrameSideDataType::VIDEO_ENC_PARAMS)
        } else if c == 20 {
            Some(FrameSideDataType::SEI_UNREGISTERED)
        } else if c == 21 {
            Some(FrameSideDataType::FILM_GRAIN_PARAMS)
        } else if c == 22 {
            Some(FrameSideDataType::DETECTION_BBOXES)
        } else if c == 23 {
            Some(FrameSideDataType::DOVI_RPU_BUFFER)
        } else if c == 24 {
            Some(FrameSideDataType::DOVI_METADATA)
        } else if c == 25 {
            Some(FrameSideDataType::DYNAMIC_HDR_VIVID)
        } else if c == 26 {
            Some(FrameSideDataType::AMBIENT_VIEWING_ENVIRONMENT)
        } else {
            None
        }
    }

    /// The token this crate names the kind by.
    pub open spec fn spec_name(self) -> Seq<char> {
        match self {
            FrameSideDataType::PANSCAN => "panscan"@,
            FrameSideDataType::A53_CC => "a53_cc"@,
            FrameSideDataType::STEREO3D => "stereo3d"@,
            FrameSideDataType::MATRIXENCODING => "matrixencoding"@,
            FrameSideDataType::DOWNMIX_INFO => "downmix_info"@,
            FrameSideDataType::REPLAYGAIN => "replaygain"@,
            FrameSideDataType::DISPLAYMATRIX => "displaymatrix"@,
            FrameSideDataType::AFD => "afd"@,
            FrameSideDataType::MOTION_VECTORS => "motion_vectors"@,
            FrameSideDataType::SKIP_SAMPLES => "skip_samples"@,
            FrameSideDataType::AUDIO_SERVICE_TYPE => "audio_service_type"@,
            FrameSideDataType::MASTERING_DISPLAY_METADATA => "mastering_display_metadata"@,
            FrameSideDataType::GOP_TIMECODE => "gop_timecode"@,
            FrameSideDataType::SPHERICAL => "spherical"@,
            FrameSideDataType::CONTENT_LIGHT_LEVEL => "content_light_level"@,
            FrameSideDataType::ICC_PROFILE => "icc_profile"@,
            FrameSideDataType::S12M_TIMECODE => "s12m_timecode"@,
            FrameSideDataType::DYNAMIC_HDR_PLUS => "dynamic_hdr_plus"@,
            FrameSideDataType::REGIONS_OF_INTEREST => "regions_of_interest"@,
            FrameSideDataType::VIDEO_ENC_PARAMS => "video_enc_params"@,
            FrameSideDataType::SEI_UNREGISTERED => "sei_unregistered"@,
            FrameSideDataType::FILM_GRAIN_PARAMS => "film_grain_params"@,
            FrameSideDataType::DETECTION_BBOXES => "detection_bboxes"@,
            FrameSideDataType::DOVI_RPU_BUFFER => "dovi_rpu_buffer"@,
            FrameSideDataType::DOVI_METADATA => "dovi_metadata"@,
            FrameSideDataType::DYNAMIC_HDR_VIVID => "dynamic_hdr_vivid"@,
            FrameSideDataType::AMBIENT_VIEWING_ENVIRONMENT => "ambient_viewing_environment"@,
        }
    }

    /// Encode this kind as its foreign enumerator.
    pub fn code(self) -> (c: i32)
        ensures
            c == self.spec_code(),
    {
        match self {
            FrameSideDataType::PANSCAN => 0,
            FrameSideDataType::A53_CC => 1,
            FrameSideDataType::STEREO3D => 2,
            FrameSideDataType::MATRIXENCODING => 3,
            FrameSideDataType::DOWNMIX_INFO => 4,
            FrameSideDataType::REPLAYGAIN => 5,
            FrameSideDataType::DISPLAYMATRIX => 6,
            FrameSideDataType::AFD => 7,
            FrameSideDataType::MOTION_VECTORS => 8,
            FrameSideDataType::SKIP_SAMPLES => 9,
            FrameSideDataType::AUDIO_SERVICE_TYPE => 10,
            FrameSideDataType::MASTERING_DISPLAY_METADATA => 11,
            FrameSideDataType::GOP_TIMECODE => 12,
            FrameSideDataType::SPHERICAL => 13,
            FrameSideDataType::CONTENT_LIGHT_LEVEL => 14,
            FrameSideDataType::ICC_PROFILE => 15,
            FrameSideDataType::S12M_TIMECODE => 16,
            FrameSideDataType::DYNAMIC_HDR_PLUS => 17,
            FrameSideDataType::REGIONS_OF_INTEREST => 18,
            FrameSideDataType::VIDEO_ENC_PARAMS => 19,
            FrameSideDataType::SEI_UNREGISTERED => 20,
            FrameSideDataType::FILM_GRAIN_PARAMS => 21,
            FrameSideDataType::DETECTION_BBOXES => 22,
            FrameSideDataType::DOVI_RPU_BUFFER => 23,
            FrameSideDataType::DOVI_METADATA => 24,
            FrameSideDataType::DYNAMIC_HDR_VIVID => 25,
            FrameSideDataType::AMBIENT_VIEWING_ENVIRONMENT => 26,
        }
    }

    /// Decode a foreign enumerator, when it lies in the published
    /// enumeration.
    pub fn from_code(c: i32) -> (r: Option<FrameSideDataType>)
        ensures
            r == FrameSideDataType::spec_from_code(c),
    {
        if c == 0 {
            Some(FrameSideDataType::PANSCAN)
        } else if c == 1 {
            Some(FrameSideDataType::A53_CC)
        } else if c == 2 {
            Some(FrameSideDataType::STEREO3D)
        } else if c == 3 {
            Some(FrameSideDataType::MATRIXENCODING)
        } else if c == 4 {
            Some(FrameSideDataType::DOWNMIX_INFO)
        } else if c == 5 {
            Some(FrameSideDataType::REPLAYGAIN)
        } else if c == 6 {
            Some(FrameSideDataType::DISPLAYMATRIX)
        } else if c == 7 {
            Some(FrameSideDataType::AFD)
        } else if c == 8 {
            Some(FrameSideDataType::MOTION_VECTORS)
        } else if c == 9 {
            Some(FrameSideDataType::SKIP_SAMPLES)
        } else if c == 10 {
            Some(FrameSideDataType::AUDIO_SERVICE_TYPE)
        } else if c == 11 {
            Some(FrameSideDataType::MASTERING_DISPLAY_METADATA)
        } else if c == 12 {
            Some(FrameSideDataType::GOP_TIMECODE)
        } else if c == 13 {
            Some(FrameSideDataType::SPHERICAL)
        } else if c == 14 {
            Some(FrameSideDataType::CONTENT_LIGHT_LEVEL)
        } else if c == 15 {
            Some(FrameSideDataType::ICC_PROFILE)
        } else if c == 16 {
            Some(FrameSideDataType::S12M_TIMECODE)
        } else if c == 17 {
            Some(FrameSideDataType::DYNAMIC_HDR_PLUS)
        } else if c == 18 {
            Some(FrameSideDataType::REGIONS_OF_INTEREST)
        } else if c == 19 {
            Some(FrameSideDataType::VIDEO_ENC_PARAMS)
        } else if c == 20 {
            Some(FrameSideDataType::SEI_UNREGISTERED)
        } else if c == 21 {
            Some(FrameSideDataType::FILM_GRAIN_PARAMS)
        } else if c == 22 {
            Some(FrameSideDataType::DETECTION_BBOXES)
        } else if c == 23 {
            Some(FrameSideDataType::DOVI_RPU_BUFFER)
        } else if c == 24 {
            Some(FrameSideDataType::DOVI_METADATA)
        } else if c == 25 {
            Some(FrameSideDataType::DYNAMIC_HDR_VIVID)
        } else if c == 26 {
            Some(FrameSideDataType::AMBIENT_VIEWING_ENVIRONMENT)
        } else {
            None
        }
    }

    /// The token this crate names the kind by.
    pub fn name(&self) -> (r: &'static str)
        ensures
            r@ == self.spec_name(),
    {
        match self {
            FrameSideDataType::PANSCAN => "panscan",
            FrameSideDataType::A53_CC => "a53_cc",
            FrameSideDataType::STEREO3D => "stereo3d",
            FrameSideDataType::MATRIXENCODING => "matrixencoding",
            FrameSideDataType::DOWNMIX_INFO => "downmix_info",
            FrameSideDataType::REPLAYGAIN => "replaygain",
            FrameSideDataType::DISPLAYMATRIX => "displaymatrix",
            FrameSideDataType::AFD => "afd",
            FrameSideDataType::MOTION_VECTORS => "motion_vectors",
            FrameSideDataType::SKIP_SAMPLES => "skip_samples",
            FrameSideDataType::AUDIO_SERVICE_TYPE => "audio_service_type",
            FrameSideDataType::MASTERING_DISPLAY_METADATA => "mastering_display_metadata",
            FrameSideDataType::GOP_TIMECODE => "gop_timecode",
            FrameSideDataType::SPHERICAL => "spherical",
            FrameSideDataType::CONTENT_LIGHT_LEVEL => "content_light_level",
            FrameSideDataType::ICC_PROFILE => "icc_profile",
            FrameSideDataType::S12M_TIMECODE => "s12m_timecode",
            FrameSideDataType::DYNAMIC_HDR_PLUS => "dynamic_hdr_plus",
            FrameSideDataType::REGIONS_OF_INTEREST => "regions_of_interest",
            FrameSideDataType::VIDEO_ENC_PARAMS => "video_enc_params",
            FrameSideDataType::SEI_UNREGISTERED => "sei_unregistered",
            FrameSideDataType::FILM_GRAIN_PARAMS => "film_grain_params",
            FrameSideDataType::DETECTION_BBOXES => "detection_bboxes",
            FrameSideDataType::DOVI_RPU_BUFFER => "dovi_rpu_buffer",
            FrameSideDataType::DOVI_METADATA => "dovi_metadata",
            FrameSideDataType::DYNAMIC_HDR_VIVID => "dynamic_hdr_vivid",
            FrameSideDataType::AMBIENT_VIEWING_ENVIRONMENT => "ambient_viewing_environment",
        }
    }
}

/// Encoding a side-data kind and decoding it again gives the kind
/// back, for every kind.
pub proof fn lemma_side_data_code_round_trip(t: FrameSideDataType)
    ensures
        FrameSideDataType::spec_from_code(t.spec_code()) == Some(t),
{
}

/// One piece of frame side data: its kind, payload, and metadata.
pub struct FrameSideData {
    kind: FrameSideDataType,
    data: Vec<u8>,
    metadata: Dictionary,
}

impl FrameSideData {
    pub closed spec fn spec_kind(&self) -> FrameSideDataType {
        self.kind
    }

    pub closed spec fn spec_data(&self) -> Seq<u8> {
        self.data@
    }

    pub closed spec fn spec_metadata(&self) -> Seq<(String, String)> {
        self.metadata@
    }

    /// Bundle a payload with its kind and metadata.
    pub fn new(kind: FrameSideDataType, data: Vec<u8>, metadata: Dictionary) -> (s: FrameSideData)
        ensures
            s.spec_kind() == kind,
            s.spec_data() == data@,
            s.spec_metadata() == metadata@,
    {
        FrameSideData { kind, data, metadata }
    }

    /// The kind of this payload.
    pub fn kind(&self) -> (k: FrameSideDataType)
        ensures
            k == self.spec_kind(),
    {
        self.kind
    }

    /// The payload bytes.
    pub fn data(&self) -> (d: &Vec<u8>)
        ensures
            d@ == self.spec_data(),
    {
        &self.data
    }

    /// The payload's metadata, as a borrowed view.
    pub fn metadata(&self) -> (r: DictRef<'_>)
        ensures
            r@ == self.spec_metadata(),
    {
        self.metadata.as_ref()
    }
}

} // verus!
