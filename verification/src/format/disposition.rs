//! Stream disposition flags, a bit set mirroring the foreign
//! library's published disposition bits.

use vstd::prelude::*;

verus! {

/// Every published disposition bit.
pub const DISPOSITION_MASK: i32 = 0x707FF;

/// One disposition a stream may carry.
#[derive(Copy, Clone, Debug, PartialEq, Eq, Structural)]
pub enum DispositionFlag {
    Default,
    Dub,
    Original,
    Comment,
    Lyrics,
    Karaoke,
    Forced,
    HearingImpaired,
    VisualImpaired,
    CleanEffects,
    AttachedPic,
    Captions,
    Descriptions,
    Metadata,
}

impl DispositionFlag {
    /// The single bit the foreign library assigns this disposition.
    pub open spec fn spec_mask(self) -> i32 {
        match self {
            DispositionFlag::Default => 0x1,
            DispositionFlag::Dub => 0x2,
            DispositionFlag::Original => 0x4,
            DispositionFlag::Comment => 0x8,
            DispositionFlag::Lyrics => 0x10,
            DispositionFlag::Karaoke => 0x20,
            DispositionFlag::Forced => 0x40,
            DispositionFlag::HearingImpaired => 0x80,
            DispositionFlag::VisualImpaired => 0x100,
            DispositionFlag::CleanEffects => 0x200,
            DispositionFlag::AttachedPic => 0x400,
            DispositionFlag::Captions => 0x10000,
            DispositionFlag::Descriptions => 0x20000,
            DispositionFlag::Metadata => 0x40000,
        }
    }

    /// The single bit the foreign library assigns this disposition.
    pub fn mask(self) -> (m: i32)
        ensures
            m == self.spec_mask(),
    {
        match self {
            DispositionFlag::Default => 0x1,
            DispositionFlag::Dub => 0x2,
            DispositionFlag::Original => 0x4,
            DispositionFlag::Comment => 0x8,
            DispositionFlag::Lyrics => 0x10,
            DispositionFlag::Karaoke => 0x20,
            DispositionFlag::Forced => 0x40,
            DispositionFlag::HearingImpaired => 0x80,
            DispositionFlag::VisualImpaired => 0x100,
            DispositionFlag::CleanEffects => 0x200,
            DispositionFlag::AttachedPic => 0x400,
            DispositionFlag::Captions => 0x10000,
            DispositionFlag::Descriptions => 0x20000,
            DispositionFlag::Metadata => 0x40000,
        }
    }
}

/// A set of dispositions, stored as the foreign bit pattern.
#[derive(Copy, Clone, Debug, PartialEq, Eq, Structural)]
pub struct Disposition {
    bits: i32,
}

impl Disposition {
    pub closed spec fn spec_bits(&self) -> i32 {
        self.bits
    }

    /// No dispositions.
    pub fn empty() -> (d: Disposition)
        ensures
            d.spec_bits() == 0,
    {
        Disposition { bits: 0 }
    }

    /// Keep the published bits of a raw pattern and drop the rest.
    pub fn from_bits_truncate(bits: i32) -> (d: Disposition)
        ensures
            d.spec_bits() == bits & DISPOSITION_MASK,
    {
        Disposition { bits: bits & DISPOSITION_MASK }
    }

    /// The raw bit pattern.
    pub fn bits(&self) -> (b: i32)
        ensures
            b == self.spec_bits(),
    {
        self.bits
    }

    /// Whether the set includes `flag`.
    pub fn contains(&self, flag: DispositionFlag) -> (r: bool)
        ensures
            r == ((self.spec_bits() & flag.spec_mask()) != 0),
    {
        (self.bits & flag.mask()) != 0
    }
}

} // verus!
