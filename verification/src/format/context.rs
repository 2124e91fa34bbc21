//! Format contexts: the owning handle for a demuxer's foreign context,
//! its stream table, and the iterator that picks the best stream.

use vstd::prelude::*;

use crate::format::destroy::{Destroy, Mode};
use crate::format::stream::{stream_data_wf, stream_fields_except_rates_eq, Stream, StreamData};
use crate::host::Host;
use crate::util::media;

verus! {

/// An owning handle for a foreign format context.
///
/// The handle owns its foreign allocation through a shared destructor
/// registered at construction, so derived objects (codec parameters of
/// a stream) can hold further references and the context is freed
/// exactly once, when the last reference goes.
pub struct Context {
    addr: u64,
    dtor: Destroy,
    bit_rate: i64,
    duration: i64,
    streams: Vec<StreamData>,
}

impl Context {
    /// The foreign address this handle refers to.
    pub closed spec fn spec_addr(&self) -> u64 {
        self.addr
    }

    /// The handle's reference to the shared destructor.
    pub closed spec fn spec_dtor(&self) -> Destroy {
        self.dtor
    }

    pub closed spec fn spec_bit_rate(&self) -> i64 {
        self.bit_rate
    }

    pub closed spec fn spec_duration(&self) -> i64 {
        self.duration
    }

    /// The stream table the demuxer found.
    pub closed spec fn spec_streams(&self) -> Seq<StreamData> {
        self.streams@
    }

    /// The stream table is addressable and each stream is well formed.
    pub open spec fn wf(&self) -> bool {
        &&& self.spec_streams().len() <= u32::MAX
        &&& forall|i: int|
            0 <= i < self.spec_streams().len() ==> stream_data_wf(
                #[trigger] self.spec_streams()[i],
            )
    }

    /// The handle's destructor reference is still active and guards
    /// this handle's address with input-mode teardown.
    pub open spec fn valid(&self, h: &Host) -> bool {
        &&& self.spec_dtor().valid(h)
        &&& self.spec_dtor().spec_mode() == Mode::Input
        &&& h.slot_addr(self.spec_dtor().slot_id()) == self.spec_addr()
    }

    /// Wrap a freshly-opened foreign context: register its shared
    /// destructor and take ownership of the stream table the demuxer
    /// found.
    pub(crate) fn assemble(
        host: &mut Host,
        addr: u64,
        bit_rate: i64,
        duration: i64,
        streams: Vec<StreamData>,
    ) -> (c: Context)
        requires
            old(host).wf(),
            old(host).is_live(addr),
            !old(host).guarded(addr),
            streams@.len() <= u32::MAX,
            forall|i: int| 0 <= i < streams@.len() ==> stream_data_wf(#[trigger] streams@[i]),
        ensures
            final(host).wf(),
            c.wf(),
            c.valid(final(host)),
            c.spec_addr() == addr,
            c.spec_bit_rate() == bit_rate,
            c.spec_duration() == duration,
            c.spec_streams() == streams@,
            c.spec_dtor().slot_id() == old(host).num_slots(),
            final(host).num_slots() == old(host).num_slots() + 1,
            final(host).slot_count(c.spec_dtor().slot_id()) == 1,
            final(host).freed_log() == old(host).freed_log(),
            final(host).spec_next() == old(host).spec_next(),
            forall|b: u64| old(host).is_live(b) == final(host).is_live(b),
    {
        let dtor = Destroy::new(host, addr, None, Mode::Input);
        Context { addr, dtor, bit_rate, duration, streams }
    }

    /// How many streams the context holds.
    pub fn nb_streams(&self) -> (n: u32)
        requires
            self.wf(),
        ensures
            n == self.spec_streams().len(),
    {
        self.streams.len() as u32
    }

    /// The container's total bit rate.
    pub fn bit_rate(&self) -> (r: i64)
        ensures
            r == self.spec_bit_rate(),
    {
        self.bit_rate
    }

    /// The container's total duration.
    pub fn duration(&self) -> (d: i64)
        ensures
            d == self.spec_duration(),
    {
        self.duration
    }

    /// An iterator over the context's streams.
    pub fn streams(&self) -> (it: StreamIter<'_>)
        ensures
            it.spec_context() == *self,
    {
        StreamIter::new(self)
    }

    /// One more reference to this context's shared destructor, for a
    /// derived object that must keep the resource alive.
    pub fn destroy(&self, host: &mut Host) -> (d: Destroy)
        requires
            old(host).wf(),
            self.valid(old(host)),
            old(host).slot_count(self.spec_dtor().slot_id()) < u64::MAX,
        ensures
            final(host).wf(),
            self.valid(final(host)),
            d.valid(final(host)),
            d.slot_id() == self.spec_dtor().slot_id(),
            d.spec_mode() == Mode::Input,
            final(host).slot_count(self.spec_dtor().slot_id()) == old(host).slot_count(
                self.spec_dtor().slot_id(),
            ) + 1,
            final(host).freed_log() == old(host).freed_log(),
            final(host).spec_next() == old(host).spec_next(),
            final(host).num_slots() == old(host).num_slots(),
            forall|b: u64| old(host).is_live(b) == final(host).is_live(b),
    {
        self.dtor.share(host)
    }

    /// Drop this handle's reference to the context.  When it is the
    /// last reference, the foreign close-input teardown frees the
    /// resource exactly once.
    pub fn close(self, host: &mut Host)
        requires
            old(host).wf(),
            self.valid(old(host)),
        ensures
            final(host).wf(),
            final(host).spec_next() == old(host).spec_next(),
            final(host).num_slots() == old(host).num_slots(),
            final(host).slot_count(self.spec_dtor().slot_id()) == old(host).slot_count(
                self.spec_dtor().slot_id(),
            ) - 1,
            old(host).slot_count(self.spec_dtor().slot_id()) > 1 ==> final(host).freed_log()
                == old(host).freed_log(),
            old(host).slot_count(self.spec_dtor().slot_id()) == 1 ==> {
                &&& final(host).freed_log() == old(host).freed_log().push(self.spec_addr())
                &&& final(host).free_count(self.spec_addr()) == 1
                &&& !final(host).is_live(self.spec_addr())
            },
            old(host).freed_log().is_prefix_of(final(host).freed_log()),
    {
        self.dtor.release(host);
    }

    /// Replace the time base of stream `i`, leaving every other field
    /// and every other stream untouched.
    pub fn set_stream_time_base(&mut self, i: usize, time_base: crate::util::rational::Rational)
        requires
            old(self).wf(),
            i < old(self).spec_streams().len(),
        ensures
            final(self).wf(),
            final(self).spec_addr() == old(self).spec_addr(),
            final(self).spec_dtor() == old(self).spec_dtor(),
            final(self).spec_streams().len() == old(self).spec_streams().len(),
            forall|j: int|
                0 <= j < old(self).spec_streams().len() && j != i as int ==> final(self).spec_streams()[j] == old(self).spec_streams()[j],
            final(self).spec_streams()[i as int].time_base == time_base,
            stream_fields_except_rates_eq(
                final(self).spec_streams()[i as int],
                old(self).spec_streams()[i as int],
            ),
            final(self).spec_streams()[i as int].frame_rate == old(self).spec_streams()[i as int].frame_rate,
            final(self).spec_streams()[i as int].avg_frame_rate == old(self).spec_streams()[i as int].avg_frame_rate,
    {
        let mut updated = self.streams[i].duplicate();
        updated.time_base = time_base;
        self.streams.set(i, updated);
        proof {
            self.lemma_streams_still_wf(old(self), i as int);
        }
    }

    /// Replace the frame rate of stream `i`.
    pub fn set_stream_frame_rate(&mut self, i: usize, value: crate::util::rational::Rational)
        requires
            old(self).wf(),
            i < old(self).spec_streams().len(),
        ensures
            final(self).wf(),
            final(self).spec_addr() == old(self).spec_addr(),
            final(self).spec_dtor() == old(self).spec_dtor(),
            final(self).spec_streams().len() == old(self).spec_streams().len(),
            forall|j: int|
                0 <= j < old(self).spec_streams().len() && j != i as int ==> final(self).spec_streams()[j] == old(self).spec_streams()[j],
            final(self).spec_streams()[i as int].frame_rate == value,
            stream_fields_except_rates_eq(
                final(self).spec_streams()[i as int],
                old(self).spec_streams()[i as int],
            ),
            final(self).spec_streams()[i as int].time_base == old(self).spec_streams()[i as int].time_base,
            final(self).spec_streams()[i as int].avg_frame_rate == old(self).spec_streams()[i as int].avg_frame_rate,
    {
        let mut updated = self.streams[i].duplicate();
        updated.frame_rate = value;
        self.streams.set(i, updated);
        proof {
            self.lemma_streams_still_wf(old(self), i as int);
        }
    }

    /// Replace the average frame rate of stream `i`.
    pub fn set_stream_avg_frame_rate(&mut self, i: usize, value: crate::util::rational::Rational)
        requires
            old(self).wf(),
            i < old(self).spec_streams().len(),
        ensures
            final(self).wf(),
            final(self).spec_addr() == old(self).spec_addr(),
            final(self).spec_dtor() == old(self).spec_dtor(),
            final(self).spec_streams().len() == old(self).spec_streams().len(),
            forall|j: int|
                0 <= j < old(self).spec_streams().len() && j != i as int ==> final(self).spec_streams()[j] == old(self).spec_streams()[j],
            final(self).spec_streams()[i as int].avg_frame_rate == value,
            stream_fields_except_rates_eq(
                final(self).spec_streams()[i as int],
                old(self).spec_streams()[i as int],
            ),
            final(self).spec_streams()[i as int].time_base == old(self).spec_streams()[i as int].time_base,
            final(self).spec_streams()[i as int].frame_rate == old(self).spec_streams()[i as int].frame_rate,
    {
        let mut updated = self.streams[i].duplicate();
        updated.avg_frame_rate = value;
        self.streams.set(i, updated);
        proof {
            self.lemma_streams_still_wf(old(self), i as int);
        }
    }

    /// Replace the metadata of stream `i` with `value`, consuming it.
    pub fn set_stream_metadata(&mut self, i: usize, value: crate::util::dict::Dictionary)
        requires
            old(self).wf(),
            i < old(self).spec_streams().len(),
            crate::util::dict::spec_keys_unique(value@),
        ensures
            final(self).wf(),
            final(self).spec_addr() == old(self).spec_addr(),
            final(self).spec_dtor() == old(self).spec_dtor(),
            final(self).spec_streams().len() == old(self).spec_streams().len(),
            forall|j: int|
                0 <= j < old(self).spec_streams().len() && j != i as int ==> final(self).spec_streams()[j] == old(self).spec_streams()[j],
            final(self).spec_streams()[i as int].metadata@ == value@,
            final(self).spec_streams()[i as int].codec_id == old(self).spec_streams()[i as int].codec_id,
            final(self).spec_streams()[i as int].id == old(self).spec_streams()[i as int].id,
    {
        let mut updated = self.streams[i].duplicate();
        updated.metadata = value;
        self.streams.set(i, updated);
        proof {
            self.lemma_streams_still_wf(old(self), i as int);
        }
    }

    /// After one stream record with unique metadata keys is replaced,
    /// the table is still well formed.
    proof fn lemma_streams_still_wf(&self, pre: &Context, i: int)
        requires
            pre.wf(),
            self.spec_streams().len() == pre.spec_streams().len(),
            0 <= i < self.spec_streams().len(),
            stream_data_wf(self.spec_streams()[i]),
            forall|j: int|
                0 <= j < pre.spec_streams().len() && j != i ==> self.spec_streams()[j]
                    == pre.spec_streams()[j],
        ensures
            self.wf(),
    {
        assert forall|j: int|
            0 <= j < self.spec_streams().len()
            implies stream_data_wf(#[trigger] self.spec_streams()[j]) by {
            if j != i {
                assert(stream_data_wf(pre.spec_streams()[j]));
            }
        }
    }

    /// The record of stream `i`.
    pub(crate) fn stream_field(&self, i: usize) -> (s: &StreamData)
        requires
            0 <= i < self.spec_streams().len(),
        ensures
            *s == self.spec_streams()[i as int],
    {
        &self.streams[i]
    }

    /// The raw address value, for derived handles.
    pub(crate) fn addr_value(&self) -> (a: u64)
        ensures
            a == self.spec_addr(),
    {
        self.addr
    }
}

/// An iterator over a context's streams, able to pick the best stream
/// of a media kind as the foreign stream finder does.
pub struct StreamIter<'a> {
    context: &'a Context,
}

impl<'a> StreamIter<'a> {
    pub closed spec fn spec_context(&self) -> Context {
        *self.context
    }

    /// An iterator over `context`'s streams.
    pub fn new(context: &'a Context) -> (it: StreamIter<'a>)
        ensures
            it.spec_context() == *context,
    {
        StreamIter { context }
    }

    /// The first stream whose codec carries media of kind `kind`, or
    /// `None` exactly when no stream does.
    pub fn best(&self, kind: media::Type) -> (r: Option<Stream<'a>>)
        requires
            self.spec_context().wf(),
        ensures
            match r {
                Some(s) => {
                    &&& s.spec_context() == self.spec_context()
                    &&& s.wf()
                    &&& 0 <= s.spec_index() < self.spec_context().spec_streams().len()
                    &&& s.spec_data().codec_id.spec_medium() == kind
                    &&& forall|j: int|
                        0 <= j < s.spec_index()
                            ==> (#[trigger] self.spec_context().spec_streams()[j]).codec_id
                            .spec_medium() != kind
                },
                None => forall|j: int|
                    0 <= j < self.spec_context().spec_streams().len()
                        ==> (#[trigger] self.spec_context().spec_streams()[j]).codec_id
                        .spec_medium() != kind,
            },
    {
        let n = self.context.streams.len();
        let mut i: usize = 0;
        while i < n
            invariant
                self.spec_context().wf(),
                n == self.spec_context().spec_streams().len(),
                i <= n,
                forall|j: int|
                    0 <= j < i ==> (#[trigger] self.spec_context().spec_streams()[j]).codec_id
                        .spec_medium() != kind,
            decreases n - i,
        {
            let medium = self.context.stream_field(i).codec_id.medium();
            if medium == kind {
                return Some(Stream::over(self.context, i));
            }
            i = i + 1;
        }
        None
    }
}

} // verus!
