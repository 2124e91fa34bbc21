//! Media kinds and their foreign enumerator codes.

use vstd::prelude::*;

verus! {

/// The kind of content a codec or stream carries.
#[derive(Eq, PartialEq, Clone, Copy, Debug, Structural)]
pub enum Type {
    Unknown,
    Video,
    Audio,
    Data,
    Subtitle,
    Attachment,
}

impl Type {
    /// The foreign enumerator for this kind.
    pub open spec fn spec_code(self) -> i32 {
        match self {
            Type::Unknown => (-1) as i32,
            Type::Video => 0,
            Type::Audio => 1,
            Type::Data => 2,
            Type::Subtitle => 3,
            Type::Attachment => 4,
        }
    }

    /// The kind a foreign enumerator stands for; codes outside the
    /// published enumeration mean `Unknown`.
    pub open spec fn spec_from_code(c: i32) -> Type {
        if c == 0 {
            Type::Video
        } else if c == 1 {
            Type::Audio
        } else if c == 2 {
            Type::Data
        } else if c == 3 {
            Type::Subtitle
        } else if c == 4 {
            Type::Attachment
        } else {
            Type::Unknown
        }
    }

    /// Encode this kind as its foreign enumerator.
    pub fn code(self) -> (c: i32)
        ensures
            c == self.spec_code(),
    {
        match self {
            Type::Unknown => -1,
            Type::Video => 0,
            Type::Audio => 1,
            Type::Data => 2,
            Type::Subtitle => 3,
            Type::Attachment => 4,
        }
    }

    /// Decode a foreign enumerator.
    pub fn from_code(c: i32) -> (t: Type)
        ensures
            t == Type::spec_from_code(c),
    {
        if c == 0 {
            Type::Video
        } else if c == 1 {
            Type::Audio
        } else if c == 2 {
            Type::Data
        } else if c == 3 {
            Type::Subtitle
        } else if c == 4 {
            Type::Attachment
        } else {
            Type::Unknown
        }
    }
}

/// Encoding a media kind and decoding it again gives the kind back,
/// for every kind.
pub proof fn lemma_media_code_round_trip(t: Type)
    ensures
        Type::spec_from_code(t.spec_code()) == t,
{
}

} // verus!
