//! Value-level utilities: media kinds, sample formats, channel layouts,
//! rationals, dictionaries, and frames.

pub mod channel_layout;
pub mod dict;
pub mod discard;
pub mod frame;
pub mod media;
pub mod rational;
pub mod samplefmt;
pub mod side_data;
