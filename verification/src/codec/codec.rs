//! A codec descriptor: what the foreign registry publishes about one
//! compiled-in codec.

use vstd::prelude::*;

use crate::codec::audio::Audio;
use crate::codec::capabilities::Capabilities;
use crate::codec::codec_id::CodecId;
use crate::error::Error;
use crate::util::channel_layout::ChannelLayout;
use crate::util::media;

verus! {

/// A codec as the foreign registry describes it.  The sample-rate,
/// sample-format and channel-layout tables are sentinel-terminated
/// arrays when present (`0`, the `NONE` format code, and a
/// zero-channel layout respectively).
pub struct Codec {
    id: CodecId,
    name: String,
    long_name: String,
    medium: media::Type,
    capabilities: Capabilities,
    decoder: bool,
    encoder: bool,
    sample_rates: Option<Vec<i32>>,
    sample_fmts: Option<Vec<i32>>,
    ch_layouts: Option<Vec<ChannelLayout>>,
}

impl Codec {
    pub closed spec fn spec_id(&self) -> CodecId {
        self.id
    }

    pub closed spec fn spec_name(&self) -> Seq<char> {
        self.name@
    }

    pub closed spec fn spec_long_name(&self) -> Seq<char> {
        self.long_name@
    }

    pub closed spec fn spec_medium(&self) -> media::Type {
        self.medium
    }

    pub closed spec fn spec_capabilities(&self) -> Capabilities {
        self.capabilities
    }

    pub closed spec fn spec_is_decoder(&self) -> bool {
        self.decoder
    }

    pub closed spec fn spec_is_encoder(&self) -> bool {
        self.encoder
    }

    pub closed spec fn spec_sample_rates(&self) -> Option<Seq<i32>> {
        match self.sample_rates {
            Some(ref v) => Some(v@),
            None => None,
        }
    }

    pub closed spec fn spec_sample_fmts(&self) -> Option<Seq<i32>> {
        match self.sample_fmts {
            Some(ref v) => Some(v@),
            None => None,
        }
    }

    pub closed spec fn spec_ch_layouts(&self) -> Option<Seq<ChannelLayout>> {
        match self.ch_layouts {
            Some(ref v) => Some(v@),
            None => None,
        }
    }

    /// The registry's decoder entry for `id`: an audio decoder under
    /// the identifier's published name, with no optional tables.
    pub fn for_id(id: CodecId) -> (c: Codec)
        ensures
            c.spec_id() == id,
            c.spec_name() == id.spec_name(),
            c.spec_medium() == id.spec_medium(),
            c.spec_is_decoder(),
            !c.spec_is_encoder(),
            c.spec_capabilities().spec_bits() == 0,
            c.spec_sample_rates() is None,
            c.spec_sample_fmts() is None,
            c.spec_ch_layouts() is None,
    {
        Codec {
            id,
            name: id.name().to_owned(),
            long_name: String::new(),
            medium: id.medium(),
            capabilities: Capabilities::empty(),
            decoder: true,
            encoder: false,
            sample_rates: None,
            sample_fmts: None,
            ch_layouts: None,
        }
    }

    /// Whether the codec can decode.
    pub fn is_decoder(&self) -> (r: bool)
        ensures
            r == self.spec_is_decoder(),
    {
        self.decoder
    }

    /// Whether the codec can encode.
    pub fn is_encoder(&self) -> (r: bool)
        ensures
            r == self.spec_is_encoder(),
    {
        self.encoder
    }

    /// Treat this codec as an audio codec.  Succeeds exactly when its
    /// medium is audio; anything else is refused as `NotAudio`.
    pub fn audio(self) -> (r: Result<Audio, Error>)
        ensures
            match r {
                Ok(a) => self.spec_medium() == media::Type::Audio && a.spec_codec() == self,
                Err(e) => self.spec_medium() != media::Type::Audio && e == Error::NotAudio,
            },
    {
        let is_audio = matches!(self.medium, media::Type::Audio);
        if is_audio {
            Ok(Audio::new(self))
        } else {
            Err(Error::NotAudio)
        }
    }

    /// The codec's short name.
    pub fn name(&self) -> (r: &String)
        ensures
            r@ == self.spec_name(),
    {
        &self.name
    }

    /// The codec's descriptive name; empty when the registry publishes
    /// none.
    pub fn long_name(&self) -> (r: &String)
        ensures
            r@ == self.spec_long_name(),
    {
        &self.long_name
    }

    /// The kind of content the codec carries.
    pub fn medium(&self) -> (t: media::Type)
        ensures
            t == self.spec_medium(),
    {
        self.medium
    }

    /// The codec's identifier.
    pub fn id(&self) -> (id: CodecId)
        ensures
            id == self.spec_id(),
    {
        self.id
    }

    /// The codec's capability set.
    pub fn capabilities(&self) -> (c: Capabilities)
        ensures
            c == self.spec_capabilities(),
    {
        self.capabilities
    }

    /// The sentinel-terminated supported-sample-rate table, if
    /// published.
    pub fn sample_rate_table(&self) -> (r: Option<&Vec<i32>>)
        ensures
            match r {
                Some(v) => self.spec_sample_rates() == Some(v@),
                None => self.spec_sample_rates() is None,
            },
    {
        match self.sample_rates {
            Some(ref v) => Some(v),
            None => None,
        }
    }

    /// The sentinel-terminated supported-sample-format table, if
    /// published.
    pub fn sample_fmt_table(&self) -> (r: Option<&Vec<i32>>)
        ensures
            match r {
                Some(v) => self.spec_sample_fmts() == Some(v@),
                None => self.spec_sample_fmts() is None,
            },
    {
        match self.sample_fmts {
            Some(ref v) => Some(v),
            None => None,
        }
    }

    /// The sentinel-terminated supported-channel-layout table, if
    /// published.
    pub fn ch_layout_table(&self) -> (r: Option<&Vec<ChannelLayout>>)
        ensures
            match r {
                Some(v) => self.spec_ch_layouts() == Some(v@),
                None => self.spec_ch_layouts() is None,
            },
    {
        match self.ch_layouts {
            Some(ref v) => Some(v),
            None => None,
        }
    }
}

} // verus!
