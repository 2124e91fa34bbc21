//! Packet-discard policies and their foreign enumerator codes.

use vstd::prelude::*;

verus! {

/// Which packets of a stream the demuxer may drop before decoding.
#[derive(Eq, PartialEq, Clone, Copy, Debug, Structural)]
pub enum Discard {
    Nothing,
    Default,
    NonReference,
    Bidirectional,
    NonIntra,
    NonKey,
    All,
}

impl Discard {
    /// The foreign enumerator for this policy.
    pub open spec fn spec_code(self) -> i32 {
        match self {
            Discard::Nothing => (-16) as i32,
            Discard::Default => 0,
            Discard::NonReference => 8,
            Discard::Bidirectional => 16,
            Discard::NonIntra => 24,
            Discard::NonKey => 32,
            Discard::All => 48,
        }
    }

    /// The policy a foreign enumerator stands for; codes outside the
    /// published enumeration mean `Default`.
    pub open spec fn spec_from_code(c: i32) -> Discard {
        if c == -16 {
            Discard::Nothing
        } else if c == 8 {
            Discard::NonReference
        } else if c == 16 {
            Discard::Bidirectional
        } else if c == 24 {
            Discard::NonIntra
        } else if c == 32 {
            Discard::NonKey
        } else if c == 48 {
            Discard::All
        } else {
            Discard::Default
        }
    }

    /// Encode this policy as its foreign enumerator.
    pub fn code(self) -> (c: i32)
        ensures
            c == self.spec_code(),
    {
        match self {
            Discard::Nothing => -16,
            Discard::Default => 0,
            Discard::NonReference => 8,
            Discard::Bidirectional => 16,
            Discard::NonIntra => 24,
            Discard::NonKey => 32,
            Discard::All => 48,
        }
    }

    /// Decode a foreign enumerator.
    pub fn from_code(c: i32) -> (d: Discard)
        ensures
            d == Discard::spec_from_code(c),
    {
        if c == -16 {
            Discard::Nothing
        } else if c == 8 {
            Discard::NonReference
        } else if c == 16 {
            Discard::Bidirectional
        } else if c == 24 {
            Discard::NonIntra
        } else if c == 32 {
            Discard::NonKey
        } else if c == 48 {
            Discard::All
        } else {
            Discard::Default
        }
    }
}

/// Encoding a discard policy and decoding it again gives the policy
/// back, for every policy.
pub proof fn lemma_discard_code_round_trip(d: Discard)
    ensures
        Discard::spec_from_code(d.spec_code()) == d,
{
}

} // verus!
