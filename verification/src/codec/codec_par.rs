//! Codec parameters: an owning or parent-backed handle over the
//! foreign parameter block of a stream or encoder.

use vstd::prelude::*;

use crate::codec::codec_id::CodecId;
use crate::format::destroy::Destroy;
use crate::host::Host;
use crate::util::channel_layout::ChannelLayout;
use crate::util::samplefmt::SampleFormat;

verus! {

/// A codec-parameter handle.
///
/// A handle made by [`Parameters::new`] or [`Parameters::duplicate`]
/// is the unique owner of its foreign allocation and must be
/// [`Parameters::close`]d exactly once.  A handle derived from a
/// stream instead holds a reference to the parent context's shared
/// destructor: closing it only drops that reference, and the parent's
/// teardown frees everything when the last reference goes.
pub struct Parameters {
    addr: u64,
    owner: Option<Destroy>,
    codec_id: CodecId,
    sample_rate: i32,
    layout: ChannelLayout,
    format: SampleFormat,
}

impl Parameters {
    /// The foreign address this handle refers to.
    pub closed spec fn spec_addr(&self) -> u64 {
        self.addr
    }

    /// `None` for a unique owner; the parent's destructor reference
    /// otherwise.
    pub closed spec fn spec_owner(&self) -> Option<Destroy> {
        self.owner
    }

    pub closed spec fn spec_codec_id(&self) -> CodecId {
        self.codec_id
    }

    pub closed spec fn spec_sample_rate(&self) -> i32 {
        self.sample_rate
    }

    pub closed spec fn spec_layout(&self) -> ChannelLayout {
        self.layout
    }

    pub closed spec fn spec_format(&self) -> SampleFormat {
        self.format
    }

    /// What closing this handle needs from the host: a unique owner's
    /// allocation must still be live and unguarded, a derived handle's
    /// destructor reference must still be active.
    pub open spec fn can_close(&self, h: &Host) -> bool {
        match self.spec_owner() {
            None => h.is_live(self.spec_addr()) && !h.guarded(self.spec_addr()),
            Some(d) => d.valid(h),
        }
    }

    /// A fresh, uniquely-owned parameter block with no codec set.
    pub fn new(host: &mut Host) -> (p: Parameters)
        requires
            old(host).wf(),
            old(host).can_alloc(1),
        ensures
            final(host).wf(),
            p.spec_owner() is None,
            !old(host).allocated(p.spec_addr()),
            final(host).is_live(p.spec_addr()),
            !final(host).guarded(p.spec_addr()),
            final(host).spec_next() == old(host).spec_next() + 1,
            final(host).freed_log() == old(host).freed_log(),
            final(host).slot_seq() == old(host).slot_seq(),
            p.spec_codec_id() == CodecId::NONE,
            p.spec_sample_rate() == 0,
            p.spec_layout().spec_channels() == 0,
            p.spec_format() == SampleFormat::NONE,
    {
        let addr = host.allocate();
        Parameters {
            addr,
            owner: None,
            codec_id: CodecId::NONE,
            sample_rate: 0,
            layout: ChannelLayout::default(0),
            format: SampleFormat::NONE,
        }
    }

    /// A handle over a parent-owned parameter block at `addr`,
    /// holding `owner` as the reference that keeps the parent alive.
    pub(crate) fn derived(
        addr: u64,
        owner: Destroy,
        codec_id: CodecId,
        sample_rate: i32,
        layout: ChannelLayout,
        format: SampleFormat,
    ) -> (p: Parameters)
        ensures
            p.spec_addr() == addr,
            p.spec_owner() == Some(owner),
            p.spec_codec_id() == codec_id,
            p.spec_sample_rate() == sample_rate,
            p.spec_layout() == layout,
            p.spec_format() == format,
    {
        Parameters { addr, owner: Some(owner), codec_id, sample_rate, layout, format }
    }

    /// The codec identifier these parameters describe.
    pub fn codec_id(&self) -> (id: CodecId)
        ensures
            id == self.spec_codec_id(),
    {
        self.codec_id
    }

    pub fn sample_rate(&self) -> (r: i32)
        ensures
            r == self.spec_sample_rate(),
    {
        self.sample_rate
    }

    pub fn channel_layout(&self) -> (l: ChannelLayout)
        ensures
            l == self.spec_layout(),
    {
        self.layout
    }

    pub fn format(&self) -> (f: SampleFormat)
        ensures
            f == self.spec_format(),
    {
        self.format
    }

    /// An independent, uniquely-owned copy of the parameter values, as
    /// the foreign copy call produces.
    pub fn duplicate(&self, host: &mut Host) -> (p: Parameters)
        requires
            old(host).wf(),
            old(host).can_alloc(1),
        ensures
            final(host).wf(),
            p.spec_owner() is None,
            final(host).is_live(p.spec_addr()),
            !final(host).guarded(p.spec_addr()),
            final(host).spec_next() == old(host).spec_next() + 1,
            final(host).freed_log() == old(host).freed_log(),
            final(host).slot_seq() == old(host).slot_seq(),
            p.spec_codec_id() == self.spec_codec_id(),
            p.spec_sample_rate() == self.spec_sample_rate(),
            p.spec_layout() == self.spec_layout(),
            p.spec_format() == self.spec_format(),
    {
        let addr = host.allocate();
        Parameters {
            addr,
            owner: None,
            codec_id: self.codec_id,
            sample_rate: self.sample_rate,
            layout: self.layout,
            format: self.format,
        }
    }

    /// Close the handle.  A unique owner frees its allocation exactly
    /// once; a derived handle only drops its destructor reference, and
    /// the parent teardown runs when the last reference goes.
    pub fn close(self, host: &mut Host)
        requires
            old(host).wf(),
            self.can_close(old(host)),
        ensures
            final(host).wf(),
            final(host).spec_next() == old(host).spec_next(),
            old(host).freed_log().is_prefix_of(final(host).freed_log()),
            match self.spec_owner() {
                None => {
                    &&& final(host).freed_log() == old(host).freed_log().push(self.spec_addr())
                    &&& final(host).free_count(self.spec_addr()) == 1
                    &&& !final(host).is_live(self.spec_addr())
                    &&& final(host).slot_seq() == old(host).slot_seq()
                },
                Some(d) => {
                    &&& final(host).num_slots() == old(host).num_slots()
                    &&& final(host).slot_count(d.slot_id()) == old(host).slot_count(d.slot_id())
                        - 1
                    &&& old(host).slot_count(d.slot_id()) > 1 ==> final(host).freed_log() == old(host).freed_log()
                    &&& old(host).slot_count(d.slot_id()) == 1 ==> !final(host).is_live(
                        old(host).slot_addr(d.slot_id()),
                    ) && final(host).free_count(old(host).slot_addr(d.slot_id())) == 1
                },
            },
    {
        match self.owner {
            None => {
                host.free(self.addr);
            },
            Some(d) => {
                d.release(host);
            },
        }
    }
}

} // verus!
