//! Codec contexts: the owning handle for a foreign codec context and
//! the bridge from codec parameters to a decodable context.

use vstd::prelude::*;

use crate::codec::codec::Codec;
use crate::codec::codec_id::CodecId;
use crate::codec::codec_par::Parameters;
use crate::codec::decoder::Decoder;
use crate::error::Error;
use crate::format::destroy::Destroy;
use crate::host::Host;
use crate::util::channel_layout::ChannelLayout;
use crate::util::samplefmt::SampleFormat;

verus! {

/// An owning handle for a foreign codec context, together with the
/// context fields the layer reads and writes.
///
/// A context made by [`Context::new`], [`Context::new_with_codec`] or
/// [`Context::parameters_to_context`] owns its allocation uniquely and
/// must be [`Context::close`]d exactly once; one wrapped over a
/// parent-owned pointer holds the parent's destructor reference
/// instead and never frees the pointer itself.
pub struct Context {
    addr: u64,
    owner: Option<Destroy>,
    codec_id: CodecId,
    sample_rate: i32,
    layout: ChannelLayout,
    format: SampleFormat,
    request_format: SampleFormat,
    block_align: i32,
    frame_count: i64,
    frame_size: i32,
}

impl Context {
    pub closed spec fn spec_addr(&self) -> u64 {
        self.addr
    }

    pub closed spec fn spec_owner(&self) -> Option<Destroy> {
        self.owner
    }

    pub closed spec fn spec_codec_id(&self) -> CodecId {
        self.codec_id
    }

    pub closed spec fn spec_sample_rate(&self) -> i32 {
        self.sample_rate
    }

    pub closed spec fn spec_layout(&self) -> ChannelLayout {
        self.layout
    }

    pub closed spec fn spec_format(&self) -> SampleFormat {
        self.format
    }

    pub closed spec fn spec_request_format(&self) -> SampleFormat {
        self.request_format
    }

    pub closed spec fn spec_block_align(&self) -> i32 {
        self.block_align
    }

    pub closed spec fn spec_frame_count(&self) -> i64 {
        self.frame_count
    }

    pub closed spec fn spec_frame_size(&self) -> i32 {
        self.frame_size
    }

    /// What closing this handle needs from the host; see
    /// [`Parameters::can_close`](crate::codec::codec_par::Parameters::can_close).
    pub open spec fn can_close(&self, h: &Host) -> bool {
        match self.spec_owner() {
            None => h.is_live(self.spec_addr()) && !h.guarded(self.spec_addr()),
            Some(d) => d.valid(h),
        }
    }

    /// A fresh, uniquely-owned codec context with no codec attached.
    pub fn new(host: &mut Host) -> (c: Context)
        requires
            old(host).wf(),
            old(host).can_alloc(1),
        ensures
            final(host).wf(),
            c.spec_owner() is None,
            !old(host).allocated(c.spec_addr()),
            final(host).is_live(c.spec_addr()),
            !final(host).guarded(c.spec_addr()),
            final(host).spec_next() == old(host).spec_next() + 1,
            final(host).freed_log() == old(host).freed_log(),
            final(host).slot_seq() == old(host).slot_seq(),
            c.spec_codec_id() == CodecId::NONE,
            c.spec_sample_rate() == 0,
            c.spec_layout().spec_channels() == 0,
            c.spec_format() == SampleFormat::NONE,
    {
        let addr = host.allocate();
        Context {
            addr,
            owner: None,
            codec_id: CodecId::NONE,
            sample_rate: 0,
            layout: ChannelLayout::default(0),
            format: SampleFormat::NONE,
            request_format: SampleFormat::NONE,
            block_align: 0,
            frame_count: 0,
            frame_size: 0,
        }
    }

    /// A fresh context pre-attached to `codec`.
    pub fn new_with_codec(host: &mut Host, codec: &Codec) -> (c: Context)
        requires
            old(host).wf(),
            old(host).can_alloc(1),
        ensures
            final(host).wf(),
            c.spec_owner() is None,
            final(host).is_live(c.spec_addr()),
            !final(host).guarded(c.spec_addr()),
            final(host).spec_next() == old(host).spec_next() + 1,
            final(host).freed_log() == old(host).freed_log(),
            final(host).slot_seq() == old(host).slot_seq(),
            c.spec_codec_id() == codec.spec_id(),
    {
        let mut c = Context::new(host);
        c.codec_id = codec.id();
        c
    }

    /// A fresh context filled from `parameters`, as the foreign
    /// parameter-copy call does.  The model's copy always succeeds;
    /// a failure would be reported as `ParametersToContextFailed`.
    pub fn parameters_to_context(host: &mut Host, parameters: &Parameters) -> (r: Result<
        Context,
        Error,
    >)
        requires
            old(host).wf(),
            old(host).can_alloc(1),
        ensures
            final(host).wf(),
            final(host).spec_next() == old(host).spec_next() + 1,
            final(host).freed_log() == old(host).freed_log(),
            final(host).slot_seq() == old(host).slot_seq(),
            match r {
                Ok(c) => {
                    &&& c.spec_owner() is None
                    &&& final(host).is_live(c.spec_addr())
                    &&& !final(host).guarded(c.spec_addr())
                    &&& c.spec_codec_id() == parameters.spec_codec_id()
                    &&& c.spec_sample_rate() == parameters.spec_sample_rate()
                    &&& c.spec_layout() == parameters.spec_layout()
                    &&& c.spec_format() == parameters.spec_format()
                },
                Err(_) => false,
            },
    {
        let mut c = Context::new(host);
        c.codec_id = parameters.codec_id();
        c.sample_rate = parameters.sample_rate();
        c.layout = parameters.channel_layout();
        c.format = parameters.format();
        Ok(c)
    }

    /// The attached codec's identifier.
    pub fn id(&self) -> (id: CodecId)
        ensures
            id == self.spec_codec_id(),
    {
        self.codec_id
    }

    pub fn sample_rate(&self) -> (r: i32)
        ensures
            r == self.spec_sample_rate(),
    {
        self.sample_rate
    }

    pub(crate) fn set_codec_id(&mut self, id: CodecId)
        ensures
            final(self).spec_codec_id() == id,
            final(self).spec_addr() == old(self).spec_addr(),
            final(self).spec_owner() == old(self).spec_owner(),
            final(self).spec_sample_rate() == old(self).spec_sample_rate(),
            final(self).spec_layout() == old(self).spec_layout(),
            final(self).spec_format() == old(self).spec_format(),
            final(self).spec_request_format() == old(self).spec_request_format(),
            final(self).spec_block_align() == old(self).spec_block_align(),
            final(self).spec_frame_count() == old(self).spec_frame_count(),
            final(self).spec_frame_size() == old(self).spec_frame_size(),
    {
        self.codec_id = id;
    }

    pub(crate) fn set_sample_rate(&mut self, rate: i32)
        ensures
            final(self).spec_sample_rate() == rate,
            final(self).spec_addr() == old(self).spec_addr(),
            final(self).spec_owner() == old(self).spec_owner(),
            final(self).spec_codec_id() == old(self).spec_codec_id(),
            final(self).spec_layout() == old(self).spec_layout(),
            final(self).spec_format() == old(self).spec_format(),
            final(self).spec_request_format() == old(self).spec_request_format(),
            final(self).spec_block_align() == old(self).spec_block_align(),
            final(self).spec_frame_count() == old(self).spec_frame_count(),
            final(self).spec_frame_size() == old(self).spec_frame_size(),
    {
        self.sample_rate = rate;
    }

    pub fn channel_layout(&self) -> (l: ChannelLayout)
        ensures
            l == self.spec_layout(),
    {
        self.layout
    }

    pub(crate) fn set_channel_layout(&mut self, layout: ChannelLayout)
        ensures
            final(self).spec_layout() == layout,
            final(self).spec_addr() == old(self).spec_addr(),
            final(self).spec_owner() == old(self).spec_owner(),
            final(self).spec_codec_id() == old(self).spec_codec_id(),
            final(self).spec_sample_rate() == old(self).spec_sample_rate(),
            final(self).spec_format() == old(self).spec_format(),
            final(self).spec_request_format() == old(self).spec_request_format(),
            final(self).spec_block_align() == old(self).spec_block_align(),
            final(self).spec_frame_count() == old(self).spec_frame_count(),
            final(self).spec_frame_size() == old(self).spec_frame_size(),
    {
        self.layout = layout;
    }

    pub fn format(&self) -> (f: SampleFormat)
        ensures
            f == self.spec_format(),
    {
        self.format
    }

    pub(crate) fn set_request_format(&mut self, format: SampleFormat)
        ensures
            final(self).spec_request_format() == format,
            final(self).spec_addr() == old(self).spec_addr(),
            final(self).spec_owner() == old(self).spec_owner(),
            final(self).spec_codec_id() == old(self).spec_codec_id(),
            final(self).spec_sample_rate() == old(self).spec_sample_rate(),
            final(self).spec_layout() == old(self).spec_layout(),
            final(self).spec_format() == old(self).spec_format(),
            final(self).spec_block_align() == old(self).spec_block_align(),
            final(self).spec_frame_count() == old(self).spec_frame_count(),
            final(self).spec_frame_size() == old(self).spec_frame_size(),
    {
        self.request_format = format;
    }

    pub fn block_align(&self) -> (a: i32)
        ensures
            a == self.spec_block_align(),
    {
        self.block_align
    }

    pub fn frame_count(&self) -> (n: i64)
        ensures
            n == self.spec_frame_count(),
    {
        self.frame_count
    }

    pub fn frame_size(&self) -> (s: i32)
        ensures
            s == self.spec_frame_size(),
    {
        self.frame_size
    }

    /// Turn the context into a decoder with no codec opened yet.
    pub fn decoder(self) -> (d: Decoder)
        ensures
            d.spec_context() == self,
            !d.spec_open(),
            !d.spec_draining(),
            d.spec_pending().len() == 0,
    {
        Decoder::from_context(self)
    }

    /// Close the handle.  A unique owner frees its allocation exactly
    /// once; a wrapped handle only drops its parent reference.
    pub fn close(self, host: &mut Host)
        requires
            old(host).wf(),
            self.can_close(old(host)),
        ensures
            final(host).wf(),
            final(host).spec_next() == old(host).spec_next(),
            old(host).freed_log().is_prefix_of(final(host).freed_log()),
            match self.spec_owner() {
                None => {
                    &&& final(host).freed_log() == old(host).freed_log().push(self.spec_addr())
                    &&& final(host).free_count(self.spec_addr()) == 1
                    &&& !final(host).is_live(self.spec_addr())
                    &&& final(host).slot_seq() == old(host).slot_seq()
                },
                Some(d) => {
                    &&& final(host).num_slots() == old(host).num_slots()
                    &&& final(host).slot_count(d.slot_id()) == old(host).slot_count(d.slot_id())
                        - 1
                    &&& old(host).slot_count(d.slot_id()) > 1 ==> final(host).freed_log() == old(host).freed_log()
                    &&& old(host).slot_count(d.slot_id()) == 1 ==> !final(host).is_live(
                        old(host).slot_addr(d.slot_id()),
                    ) && final(host).free_count(old(host).slot_addr(d.slot_id())) == 1
                },
            },
    {
        match self.owner {
            None => {
                host.free(self.addr);
            },
            Some(d) => {
                d.release(host);
            },
        }
    }
}

} // verus!
