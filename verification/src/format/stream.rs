//! Streams: borrowed views into a format context's stream table.
//!
//! A [`Stream`] borrows its parent context, so it cannot outlive it:
//! constructing a view from a destroyed context is ruled out by the
//! borrow checker, not by a runtime check.

use vstd::prelude::*;

use crate::codec::codec_id::CodecId;
use crate::codec::codec_par::Parameters;
use crate::format::context::Context;
use crate::format::disposition::Disposition;
use crate::format::side_data::{side_data_eq, PacketSideData};
use crate::host::Host;
use crate::util::channel_layout::ChannelLayout;
use crate::util::dict::{spec_keys_unique, DictRef, Dictionary};
use crate::util::discard::Discard;
use crate::util::rational::Rational;
use crate::util::samplefmt::SampleFormat;

verus! {

/// Everything the layer reads of one stream: identifiers, timing,
/// flags, codec parameters, metadata and side data.
pub struct StreamData {
    pub id: i32,
    pub codec_id: CodecId,
    pub time_base: Rational,
    pub frame_rate: Rational,
    pub avg_frame_rate: Rational,
    pub start_time: i64,
    pub duration: i64,
    pub nb_frames: i64,
    pub disposition: i32,
    pub discard: Discard,
    pub sample_rate: i32,
    pub layout: ChannelLayout,
    pub format: SampleFormat,
    pub metadata: Dictionary,
    pub side_data: Vec<PacketSideData>,
}

/// The stream's metadata keys are unique, as a dictionary demands.
pub open spec fn stream_data_wf(s: StreamData) -> bool {
    spec_keys_unique(s.metadata@)
}

/// Field-wise equality of two stream records, comparing the owned
/// collections by content.
pub open spec fn stream_data_eq(a: StreamData, b: StreamData) -> bool {
    &&& a.id == b.id
    &&& a.codec_id == b.codec_id
    &&& a.time_base == b.time_base
    &&& a.frame_rate == b.frame_rate
    &&& a.avg_frame_rate == b.avg_frame_rate
    &&& a.start_time == b.start_time
    &&& a.duration == b.duration
    &&& a.nb_frames == b.nb_frames
    &&& a.disposition == b.disposition
    &&& a.discard == b.discard
    &&& a.sample_rate == b.sample_rate
    &&& a.layout == b.layout
    &&& a.format == b.format
    &&& a.metadata@ == b.metadata@
    &&& side_data_eq(a.side_data@, b.side_data@)
}

/// Field-wise equality of two stream records on everything but the
/// three rate/time-base fields.
pub open spec fn stream_fields_except_rates_eq(a: StreamData, b: StreamData) -> bool {
    &&& a.id == b.id
    &&& a.codec_id == b.codec_id
    &&& a.start_time == b.start_time
    &&& a.duration == b.duration
    &&& a.nb_frames == b.nb_frames
    &&& a.disposition == b.disposition
    &&& a.discard == b.discard
    &&& a.sample_rate == b.sample_rate
    &&& a.layout == b.layout
    &&& a.format == b.format
    &&& a.metadata@ == b.metadata@
    &&& side_data_eq(a.side_data@, b.side_data@)
}

impl StreamData {
    /// An independent copy with the same content.
    pub fn duplicate(&self) -> (s: StreamData)
        ensures
            stream_data_eq(s, *self),
    {
        let mut side_data: Vec<PacketSideData> = Vec::new();
        let n = self.side_data.len();
        let mut i: usize = 0;
        while i < n
            invariant
                n == self.side_data@.len(),
                i <= n,
                side_data@.len() == i,
                forall|j: int|
                    0 <= j < i ==> #[trigger] side_data@[j].spec_kind()
                        == self.side_data@[j].spec_kind() && side_data@[j].spec_data()
                        == self.side_data@[j].spec_data(),
            decreases n - i,
        {
            side_data.push(self.side_data[i].duplicate());
            i = i + 1;
        }
        let copy = StreamData {
            id: self.id,
            codec_id: self.codec_id,
            time_base: self.time_base,
            frame_rate: self.frame_rate,
            avg_frame_rate: self.avg_frame_rate,
            start_time: self.start_time,
            duration: self.duration,
            nb_frames: self.nb_frames,
            disposition: self.disposition,
            discard: self.discard,
            sample_rate: self.sample_rate,
            layout: self.layout,
            format: self.format,
            metadata: self.metadata.duplicate(),
            side_data,
        };
        proof {
            assert(copy.metadata@ == self.metadata@);
            assert(side_data_eq(copy.side_data@, self.side_data@));
            assert(stream_data_eq(copy, *self));
        }
        copy
    }
}

/// A borrowed, read-only view of one stream of a live format context.
pub struct Stream<'a> {
    context: &'a Context,
    index: usize,
}

impl<'a> Stream<'a> {
    pub closed spec fn spec_context(&self) -> Context {
        *self.context
    }

    pub closed spec fn spec_index(&self) -> int {
        self.index as int
    }

    /// The view points at an actual stream of a well-formed context.
    pub open spec fn wf(&self) -> bool {
        &&& self.spec_context().wf()
        &&& 0 <= self.spec_index() < self.spec_context().spec_streams().len()
    }

    /// The record this view reads.
    pub open spec fn spec_data(&self) -> StreamData {
        self.spec_context().spec_streams()[self.spec_index()]
    }

    /// A view of stream `index` of `context`.
    pub(crate) fn over(context: &'a Context, index: usize) -> (s: Stream<'a>)
        ensures
            s.spec_context() == *context,
            s.spec_index() == index as int,
    {
        Stream { context, index }
    }

    /// The stream's position in the context's stream table.
    pub fn index(&self) -> (i: usize)
        ensures
            i == self.spec_index(),
    {
        self.index
    }

    /// The container's stream identifier.
    pub fn id(&self) -> (id: i32)
        requires
            self.wf(),
        ensures
            id == self.spec_data().id,
    {
        self.context.stream_field(self.index).id
    }

    /// Codec parameters for this stream, holding a new reference to
    /// the parent context's shared destructor so the parameters stay
    /// usable while any copy of them lives.
    pub fn parameters(&self, host: &mut Host) -> (p: Parameters)
        requires
            self.wf(),
            old(host).wf(),
            self.spec_context().valid(old(host)),
            old(host).slot_count(self.spec_context().spec_dtor().slot_id()) < u64::MAX,
        ensures
            final(host).wf(),
            self.spec_context().valid(final(host)),
            p.spec_owner() matches Some(d) && d.slot_id()
                == self.spec_context().spec_dtor().slot_id(),
            p.can_close(final(host)),
            p.spec_codec_id() == self.spec_data().codec_id,
            p.spec_sample_rate() == self.spec_data().sample_rate,
            p.spec_layout() == self.spec_data().layout,
            p.spec_format() == self.spec_data().format,
            final(host).slot_count(self.spec_context().spec_dtor().slot_id()) == old(host).slot_count(self.spec_context().spec_dtor().slot_id()) + 1,
            final(host).freed_log() == old(host).freed_log(),
            final(host).spec_next() == old(host).spec_next(),
            final(host).num_slots() == old(host).num_slots(),
    {
        let d = self.context.destroy(host);
        let data = self.context.stream_field(self.index);
        Parameters::derived(
            self.context.addr_value(),
            d,
            data.codec_id,
            data.sample_rate,
            data.layout,
            data.format,
        )
    }

    /// The unit of time for this stream's timestamps.
    pub fn time_base(&self) -> (r: Rational)
        requires
            self.wf(),
        ensures
            r == self.spec_data().time_base,
    {
        self.context.stream_field(self.index).time_base
    }

    pub fn start_time(&self) -> (t: i64)
        requires
            self.wf(),
        ensures
            t == self.spec_data().start_time,
    {
        self.context.stream_field(self.index).start_time
    }

    /// The stream's total duration, in time-base units.
    pub fn duration(&self) -> (d: i64)
        requires
            self.wf(),
        ensures
            d == self.spec_data().duration,
    {
        self.context.stream_field(self.index).duration
    }

    pub fn nb_frames(&self) -> (n: i64)
        requires
            self.wf(),
        ensures
            n == self.spec_data().nb_frames,
    {
        self.context.stream_field(self.index).nb_frames
    }

    /// The stream's disposition flags.
    pub fn disposition(&self) -> (d: Disposition)
        requires
            self.wf(),
        ensures
            d.spec_bits() == self.spec_data().disposition
                & crate::format::disposition::DISPOSITION_MASK,
    {
        Disposition::from_bits_truncate(self.context.stream_field(self.index).disposition)
    }

    /// The packet-discard policy in force for this stream.
    pub fn discard(&self) -> (d: Discard)
        requires
            self.wf(),
        ensures
            d == self.spec_data().discard,
    {
        self.context.stream_field(self.index).discard
    }

    /// A cursor over the stream's packet side data.
    pub fn side_data(&self) -> (it: PacketSideDataIter<'a>)
        requires
            self.wf(),
        ensures
            it@ == self.spec_data().side_data@,
            it.spec_pos() == 0,
    {
        PacketSideDataIter { entries: &self.context.stream_field(self.index).side_data, cur: 0 }
    }

    /// The container's frame rate for this stream.
    pub fn frame_rate(&self) -> (r: Rational)
        requires
            self.wf(),
        ensures
            r == self.spec_data().frame_rate,
    {
        self.context.stream_field(self.index).frame_rate
    }

    /// The average frame rate the container advertises.
    pub fn avg_frame_rate(&self) -> (r: Rational)
        requires
            self.wf(),
        ensures
            r == self.spec_data().avg_frame_rate,
    {
        self.context.stream_field(self.index).avg_frame_rate
    }

    /// The stream's metadata, as a borrowed view.
    pub fn metadata(&self) -> (r: DictRef<'a>)
        requires
            self.wf(),
        ensures
            r@ == self.spec_data().metadata@,
            r.wf(),
    {
        self.context.stream_field(self.index).metadata.as_ref()
    }
}

/// A forward-only cursor over a stream's packet side data.
pub struct PacketSideDataIter<'a> {
    pub(crate) entries: &'a Vec<PacketSideData>,
    pub(crate) cur: usize,
}

impl<'a> PacketSideDataIter<'a> {
    pub closed spec fn view(&self) -> Seq<PacketSideData> {
        self.entries@
    }

    pub closed spec fn spec_pos(&self) -> int {
        self.cur as int
    }

    /// A cursor at the start of `stream`'s side data.
    pub fn new(stream: &Stream<'a>) -> (it: PacketSideDataIter<'a>)
        requires
            stream.wf(),
        ensures
            it@ == stream.spec_data().side_data@,
            it.spec_pos() == 0,
    {
        stream.side_data()
    }

    /// The next side-data entry, or `None` once every entry has been
    /// yielded.
    pub fn next(&mut self) -> (r: Option<&'a PacketSideData>)
        ensures
            final(self)@ == old(self)@,
            old(self).spec_pos() < old(self)@.len() ==> {
                &&& final(self).spec_pos() == old(self).spec_pos() + 1
                &&& match r {
                    Some(s) => s.spec_kind() == old(self)@[old(self).spec_pos()].spec_kind()
                        && s.spec_data() == old(self)@[old(self).spec_pos()].spec_data(),
                    None => false,
                }
            },
            old(self).spec_pos() >= old(self)@.len() ==> r is None && final(self).spec_pos()
                == old(self).spec_pos(),
    {
        if self.cur < self.entries.len() {
            let e = &self.entries[self.cur];
            self.cur = self.cur + 1;
            Some(e)
        } else {
            None
        }
    }
}

} // verus!
