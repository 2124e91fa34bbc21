//! Codec-side handles: codec identifiers, codec descriptors, codec
//! contexts, decoders, and codec parameters.

pub mod audio;
pub mod capabilities;
pub mod codec;
pub mod codec_id;
pub mod codec_par;
pub mod context;
pub mod decoder;

use vstd::prelude::*;

use crate::codec::codec::Codec;
use crate::codec::codec_id::CodecId;

verus! {

/// Look up the decoder for a codec identifier, as the foreign registry
/// of compiled-in decoders does.  Every supported identifier other than
/// `NONE` has a decoder.
pub fn find(id: CodecId) -> (r: Option<Codec>)
    ensures
        match r {
            Some(c) => {
                &&& id != CodecId::NONE
                &&& c.spec_id() == id
                &&& c.spec_is_decoder()
                &&& c.spec_medium() == id.spec_medium()
            },
            None => id == CodecId::NONE,
        },
{
    if matches!(id, CodecId::NONE) {
        None
    } else {
        Some(Codec::for_id(id))
    }
}

} // verus!
