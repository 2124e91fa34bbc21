//! Channel layouts, modelled by their channel count.

use vstd::prelude::*;

verus! {

/// An audio channel layout.  The layer only ever reads the channel
/// count, so that is what the value carries.
#[derive(Copy, Clone, Debug, PartialEq, Eq, Structural)]
pub struct ChannelLayout {
    nb: i32,
}

impl ChannelLayout {
    /// A layout never carries a negative channel count.
    #[verifier::type_invariant]
    pub closed spec fn channels_non_negative(&self) -> bool {
        self.nb >= 0
    }

    /// The number of channels.
    pub closed spec fn spec_channels(&self) -> i32 {
        self.nb
    }

    /// The native layout for `nb_channels` channels.
    pub fn default(nb_channels: i32) -> (l: ChannelLayout)
        requires
            nb_channels >= 0,
        ensures
            l.spec_channels() == nb_channels,
    {
        ChannelLayout { nb: nb_channels }
    }

    /// The number of channels; never negative.
    pub fn nb_channels(&self) -> (n: i32)
        ensures
            n == self.spec_channels(),
            n >= 0,
    {
        proof {
            use_type_invariant(self);
        }
        self.nb
    }
}

} // verus!
