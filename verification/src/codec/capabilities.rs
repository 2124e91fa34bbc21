//! Codec capability flags, a bit set mirroring the foreign library's
//! published capability bits.

use vstd::prelude::*;

verus! {

/// Every published capability bit.
pub const CAPABILITY_MASK: u32 = 0x7FF763;

/// One capability a codec may advertise.
#[derive(Copy, Clone, Debug, PartialEq, Eq, Structural)]
pub enum Capability {
    DrawHorizBand,
    Dr1,
    Delay,
    SmallLastFrame,
    Subframes,
    Experimental,
    ChannelConf,
    FrameThreads,
    SliceThreads,
    ParamChange,
    OtherThreads,
    VariableFrameSize,
    AvoidProbing,
    Hardware,
    Hybrid,
    EncoderReorderedOpaque,
    EncoderFlush,
    EncoderReconFrame,
}

impl Capability {
    /// The single bit the foreign library assigns this capability.
    pub open spec fn spec_mask(self) -> u32 {
        match self {
            Capability::DrawHorizBand => 0x1,
            Capability::Dr1 => 0x2,
            Capability::Delay => 0x20,
            Capability::SmallLastFrame => 0x40,
            Capability::Subframes => 0x100,
            Capability::Experimental => 0x200,
            Capability::ChannelConf => 0x400,
            Capability::FrameThreads => 0x1000,
            Capability::SliceThreads => 0x2000,
            Capability::ParamChange => 0x4000,
            Capability::OtherThreads => 0x8000,
            Capability::VariableFrameSize => 0x10000,
            Capability::AvoidProbing => 0x20000,
            Capability::Hardware => 0x40000,
            Capability::Hybrid => 0x80000,
            Capability::EncoderReorderedOpaque => 0x100000,
            Capability::EncoderFlush => 0x200000,
            Capability::EncoderReconFrame => 0x400000,
        }
    }

    /// The single bit the foreign library assigns this capability.
    pub fn mask(self) -> (m: u32)
        ensures
            m == self.spec_mask(),
    {
        match self {
            Capability::DrawHorizBand => 0x1,
            Capability::Dr1 => 0x2,
            Capability::Delay => 0x20,
            Capability::SmallLastFrame => 0x40,
            Capability::Subframes => 0x100,
            Capability::Experimental => 0x200,
            Capability::ChannelConf => 0x400,
            Capability::FrameThreads => 0x1000,
            Capability::SliceThreads => 0x2000,
            Capability::ParamChange => 0x4000,
            Capability::OtherThreads => 0x8000,
            Capability::VariableFrameSize => 0x10000,
            Capability::AvoidProbing => 0x20000,
            Capability::Hardware => 0x40000,
            Capability::Hybrid => 0x80000,
            Capability::EncoderReorderedOpaque => 0x100000,
            Capability::EncoderFlush => 0x200000,
            Capability::EncoderReconFrame => 0x400000,
        }
    }
}

/// A set of capabilities, stored as the foreign bit pattern.
#[derive(Copy, Clone, Debug, PartialEq, Eq, Structural)]
pub struct Capabilities {
    bits: u32,
}

impl Capabilities {
    pub closed spec fn spec_bits(&self) -> u32 {
        self.bits
    }

    /// No capabilities.
    pub fn empty() -> (c: Capabilities)
        ensures
            c.spec_bits() == 0,
    {
        Capabilities { bits: 0 }
    }

    /// Keep the published bits of a raw pattern and drop the rest.
    pub fn from_bits_truncate(bits: u32) -> (c: Capabilities)
        ensures
            c.spec_bits() == bits & CAPABILITY_MASK,
    {
        Capabilities { bits: bits & CAPABILITY_MASK }
    }

    /// The raw bit pattern.
    pub fn bits(&self) -> (b: u32)
        ensures
            b == self.spec_bits(),
    {
        self.bits
    }

    /// Whether the set includes `cap`.
    pub fn contains(&self, cap: Capability) -> (r: bool)
        ensures
            r == ((self.spec_bits() & cap.spec_mask()) != 0),
    {
        (self.bits & cap.mask()) != 0
    }
}

} // verus!
