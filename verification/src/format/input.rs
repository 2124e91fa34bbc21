//! Opening inputs: the demuxer registry, the media the layer can
//! open, the input context handle, and the packet iterator.
//!
//! The foreign library's probing and demuxing are opaque; what the
//! layer depends on is modelled explicitly.  A [`MediaStore`] stands
//! for what is reachable by name (a file system, a network), holding
//! for each path the demuxed shape the foreign library would report:
//! its format, streams, and packet sequence.

use vstd::prelude::*;

use crate::error::{Error, CODE_INVALID, CODE_NOT_FOUND};
use crate::format::context::{Context, StreamIter};
use crate::format::packet::Packet;
use crate::format::stream::{stream_data_eq, stream_data_wf, StreamData};
use crate::host::Host;

verus! {

/// A demuxer the registry publishes.
pub struct InputFormat {
    name: String,
    long_name: String,
    extensions: Vec<String>,
    mime_types: Vec<String>,
}

impl InputFormat {
    pub closed spec fn spec_name(&self) -> Seq<char> {
        self.name@
    }

    pub closed spec fn spec_long_name(&self) -> Seq<char> {
        self.long_name@
    }

    pub closed spec fn spec_extensions(&self) -> Seq<String> {
        self.extensions@
    }

    pub closed spec fn spec_mime_types(&self) -> Seq<String> {
        self.mime_types@
    }

    /// The demuxer's short name.
    pub fn name(&self) -> (r: &String)
        ensures
            r@ == self.spec_name(),
    {
        &self.name
    }

    /// The demuxer's descriptive name.
    pub fn long_name(&self) -> (r: &String)
        ensures
            r@ == self.spec_long_name(),
    {
        &self.long_name
    }

    /// The file extensions the demuxer claims; empty when it claims
    /// none.
    pub fn extensions(&self) -> (r: &Vec<String>)
        ensures
            r@ == self.spec_extensions(),
    {
        &self.extensions
    }

    /// The MIME types the demuxer claims; empty when it claims none.
    pub fn mime_types(&self) -> (r: &Vec<String>)
        ensures
            r@ == self.spec_mime_types(),
    {
        &self.mime_types
    }

    /// An independent copy describing the same demuxer.
    pub fn duplicate(&self) -> (f: InputFormat)
        ensures
            f.spec_name() == self.spec_name(),
            f.spec_long_name() == self.spec_long_name(),
            f.spec_extensions() == self.spec_extensions(),
            f.spec_mime_types() == self.spec_mime_types(),
    {
        InputFormat {
            name: self.name.clone(),
            long_name: self.long_name.clone(),
            extensions: copy_strings(&self.extensions),
            mime_types: copy_strings(&self.mime_types),
        }
    }
}

/// An independent copy of a string list.
fn copy_strings(v: &Vec<String>) -> (r: Vec<String>)
    ensures
        r@ == v@,
{
    let mut r: Vec<String> = Vec::new();
    let n = v.len();
    let mut i: usize = 0;
    while i < n
        invariant
            n == v@.len(),
            i <= n,
            r@ =~= v@.take(i as int),
        decreases n - i,
    {
        r.push(v[i].clone());
        proof {
            assert(r@ =~= v@.take(i as int + 1));
        }
        i = i + 1;
    }
    proof {
        assert(v@.take(n as int) =~= v@);
    }
    r
}

/// Whether the registry publishes a demuxer under `name`: the raw PCM
/// demuxers and the RIFF/WAVE demuxer this layer is built around.
pub open spec fn spec_known_format(name: Seq<char>) -> bool {
    ||| name == "wav"@
    ||| name == "s16le"@
    ||| name == "s16be"@
    ||| name == "u8"@
}

/// Look a demuxer up by its short name, as the foreign registry of
/// compiled-in demuxers does.  Returns a demuxer exactly for the
/// published names.
pub fn find_input_format(name: &str) -> (r: Option<InputFormat>)
    ensures
        match r {
            Some(f) => spec_known_format(name@) && f.spec_name() == name@,
            None => !spec_known_format(name@),
        },
{
    let n = name.to_owned();
    if n == "wav".to_owned() {
        let mut extensions: Vec<String> = Vec::new();
        extensions.push("wav".to_owned());
        let mut mime_types: Vec<String> = Vec::new();
        mime_types.push("audio/x-wav".to_owned());
        Some(
            InputFormat {
                name: "wav".to_owned(),
                long_name: "WAV / WAVE (Waveform Audio)".to_owned(),
                extensions,
                mime_types,
            },
        )
    } else if n == "s16le".to_owned() {
        Some(
            InputFormat {
                name: "s16le".to_owned(),
                long_name: "PCM signed 16-bit little-endian".to_owned(),
                extensions: Vec::new(),
                mime_types: Vec::new(),
            },
        )
    } else if n == "s16be".to_owned() {
        Some(
            InputFormat {
                name: "s16be".to_owned(),
                long_name: "PCM signed 16-bit big-endian".to_owned(),
                extensions: Vec::new(),
                mime_types: Vec::new(),
            },
        )
    } else if n == "u8".to_owned() {
        Some(
            InputFormat {
                name: "u8".to_owned(),
                long_name: "PCM unsigned 8-bit".to_owned(),
                extensions: Vec::new(),
                mime_types: Vec::new(),
            },
        )
    } else {
        None
    }
}

/// One packet as the demuxer will report it.
#[derive(Copy, Clone, Debug, PartialEq, Eq, Structural)]
pub struct PacketData {
    pub stream_index: i32,
    pub size: i32,
}

/// What opening a path would find: the demuxed shape the foreign
/// library reports for that media.
pub struct Source {
    pub path: String,
    pub format: InputFormat,
    pub bit_rate: i64,
    pub duration: i64,
    pub streams: Vec<StreamData>,
    pub packets: Vec<PacketData>,
}

/// The source's tables are well formed: an addressable stream table
/// of well-formed streams, and packets with sane counts.
pub open spec fn source_wf(s: Source) -> bool {
    &&& s.streams@.len() <= u32::MAX
    &&& forall|i: int| 0 <= i < s.streams@.len() ==> stream_data_wf(#[trigger] s.streams@[i])
    &&& forall|i: int|
        0 <= i < s.packets@.len() ==> (#[trigger] s.packets@[i]).stream_index >= 0
            && s.packets@[i].size >= 0
}

/// `i` is the first source of `sources` registered under `path`.
pub open spec fn spec_first_source(sources: Seq<Source>, path: Seq<char>, i: int) -> bool {
    &&& 0 <= i < sources.len()
    &&& sources[i].path@ == path
    &&& forall|j: int| 0 <= j < i ==> (#[trigger] sources[j].path@) != path
}

/// Some source of `sources` is registered under `path`.
pub open spec fn spec_has_source(sources: Seq<Source>, path: Seq<char>) -> bool {
    exists|i: int| 0 <= i < sources.len() && (#[trigger] sources[i].path@) == path
}

/// What is reachable by name when opening input: each registered
/// source stands for one openable piece of media.
pub struct MediaStore {
    sources: Vec<Source>,
}

impl MediaStore {
    pub closed spec fn spec_sources(&self) -> Seq<Source> {
        self.sources@
    }

    pub open spec fn wf(&self) -> bool {
        forall|i: int|
            0 <= i < self.spec_sources().len() ==> source_wf(#[trigger] self.spec_sources()[i])
    }

    /// A store with nothing reachable.
    pub fn new() -> (s: MediaStore)
        ensures
            s.wf(),
            s.spec_sources().len() == 0,
    {
        MediaStore { sources: Vec::new() }
    }

    /// Register a source under its path.
    pub fn add(&mut self, source: Source)
        requires
            old(self).wf(),
            source_wf(source),
        ensures
            final(self).wf(),
            final(self).spec_sources() == old(self).spec_sources().push(source),
    {
        self.sources.push(source);
        proof {
            assert forall|i: int|
                0 <= i < self.spec_sources().len()
                implies source_wf(#[trigger] self.spec_sources()[i]) by {
                if i < old(self).spec_sources().len() {
                    assert(source_wf(old(self).spec_sources()[i]));
                }
            }
        }
    }
}

/// An owning handle for an opened input: the format context, the
/// demuxer that opened it, and the packet sequence still to read.
pub struct InputContext {
    ctx: Context,
    fmt: InputFormat,
    packets: Vec<PacketData>,
    cursor: usize,
}

impl InputContext {
    /// The underlying format context.
    pub closed spec fn spec_context(&self) -> Context {
        self.ctx
    }

    /// The demuxer this input was opened with.
    pub closed spec fn spec_format(&self) -> InputFormat {
        self.fmt
    }

    /// The packet sequence of the input.
    pub closed spec fn spec_packets(&self) -> Seq<PacketData> {
        self.packets@
    }

    /// How many packets have been read so far.
    pub closed spec fn spec_cursor(&self) -> int {
        self.cursor as int
    }

    pub open spec fn wf(&self) -> bool {
        &&& self.spec_context().wf()
        &&& 0 <= self.spec_cursor() <= self.spec_packets().len()
        &&& forall|i: int|
            0 <= i < self.spec_packets().len() ==> (#[trigger] self.spec_packets()[i]).stream_index
                >= 0 && self.spec_packets()[i].size >= 0
    }

    /// The handle is backed by a still-active shared destructor.
    pub open spec fn valid(&self, h: &Host) -> bool {
        self.spec_context().valid(h)
    }

    /// The demuxer this input was opened with.
    pub fn format(&self) -> (f: &InputFormat)
        ensures
            *f == self.spec_format(),
    {
        &self.fmt
    }

    /// The underlying format context.
    pub fn context(&self) -> (c: &Context)
        ensures
            *c == self.spec_context(),
    {
        &self.ctx
    }

    /// Mutable access to the underlying format context, for the
    /// stream-table setters.
    pub fn context_mut(&mut self) -> (c: &mut Context)
        ensures
            *c == old(self).spec_context(),
            final(self).spec_context() == *final(c),
            final(self).spec_format() == old(self).spec_format(),
            final(self).spec_packets() == old(self).spec_packets(),
            final(self).spec_cursor() == old(self).spec_cursor(),
    {
        &mut self.ctx
    }

    /// An iterator over the input's streams.
    pub fn streams(&self) -> (it: StreamIter<'_>)
        ensures
            it.spec_context() == self.spec_context(),
    {
        self.ctx.streams()
    }

    /// How many streams the input holds.
    pub fn nb_streams(&self) -> (n: u32)
        requires
            self.wf(),
        ensures
            n == self.spec_context().spec_streams().len(),
    {
        self.ctx.nb_streams()
    }

    /// The container's total bit rate.
    pub fn bit_rate(&self) -> (r: i64)
        ensures
            r == self.spec_context().spec_bit_rate(),
    {
        self.ctx.bit_rate()
    }

    /// The container's total duration.
    pub fn duration(&self) -> (d: i64)
        ensures
            d == self.spec_context().spec_duration(),
    {
        self.ctx.duration()
    }

    /// Turn the handle into a packet iterator; get the handle back
    /// with [`PacketIter::into_inner`] when done.
    pub fn packets(self) -> (it: PacketIter)
        ensures
            it.spec_context() == self,
    {
        PacketIter::new(self)
    }

    /// Advance past the next packet and report its stream index and
    /// size, or `None` when the input is exhausted.
    pub(crate) fn next_packet_fields(&mut self) -> (r: Option<(i32, i32)>)
        requires
            old(self).wf(),
        ensures
            final(self).wf(),
            final(self).spec_context() == old(self).spec_context(),
            final(self).spec_format() == old(self).spec_format(),
            final(self).spec_packets() == old(self).spec_packets(),
            ({
                let cur = old(self).spec_cursor();
                if cur < old(self).spec_packets().len() {
                    &&& r == Some(
                        (
                            old(self).spec_packets()[cur].stream_index,
                            old(self).spec_packets()[cur].size,
                        ),
                    )
                    &&& final(self).spec_cursor() == cur + 1
                } else {
                    r is None && final(self).spec_cursor() == cur
                }
            }),
    {
        if self.cursor < self.packets.len() {
            let d = self.packets[self.cursor];
            self.cursor = self.cursor + 1;
            Some((d.stream_index, d.size))
        } else {
            None
        }
    }

    /// Drop this handle's reference to the context; see
    /// [`Context::close`].
    pub fn close(self, host: &mut Host)
        requires
            old(host).wf(),
            self.valid(old(host)),
        ensures
            final(host).wf(),
            final(host).spec_next() == old(host).spec_next(),
            final(host).num_slots() == old(host).num_slots(),
            final(host).slot_count(self.spec_context().spec_dtor().slot_id()) == old(host).slot_count(self.spec_context().spec_dtor().slot_id()) - 1,
            old(host).slot_count(self.spec_context().spec_dtor().slot_id()) > 1 ==> final(host).freed_log() == old(host).freed_log(),
            old(host).slot_count(self.spec_context().spec_dtor().slot_id()) == 1 ==> {
                &&& final(host).freed_log() == old(host).freed_log().push(
                    self.spec_context().spec_addr(),
                )
                &&& final(host).free_count(self.spec_context().spec_addr()) == 1
                &&& !final(host).is_live(self.spec_context().spec_addr())
            },
            old(host).freed_log().is_prefix_of(final(host).freed_log()),
    {
        self.ctx.close(host);
    }
}

/// A forward-only iterator over an input's packets.  It owns the
/// input while iterating; [`PacketIter::into_inner`] gives it back.
pub struct PacketIter {
    context: InputContext,
}

impl PacketIter {
    pub closed spec fn spec_context(&self) -> InputContext {
        self.context
    }

    /// An iterator owning `context`.
    pub fn new(context: InputContext) -> (it: PacketIter)
        ensures
            it.spec_context() == context,
    {
        PacketIter { context }
    }

    /// Read the next packet into a fresh packet handle, or `None`
    /// once the input is exhausted.  The caller owns the returned
    /// packet and closes it.
    pub fn next(&mut self, host: &mut Host) -> (r: Option<Packet>)
        requires
            old(self).spec_context().wf(),
            old(host).wf(),
            old(host).can_alloc(1),
        ensures
            final(self).spec_context().wf(),
            final(host).wf(),
            final(self).spec_context().spec_context() == old(self).spec_context().spec_context(),
            final(self).spec_context().spec_format() == old(self).spec_context().spec_format(),
            final(self).spec_context().spec_packets() == old(self).spec_context().spec_packets(),
            ({
                let cur = old(self).spec_context().spec_cursor();
                let packets = old(self).spec_context().spec_packets();
                if cur < packets.len() {
                    &&& final(self).spec_context().spec_cursor() == cur + 1
                    &&& match r {
                        Some(p) => {
                            &&& p.wf()
                            &&& p.spec_size() == packets[cur].size
                            &&& p.spec_stream_index() == packets[cur].stream_index
                            &&& !old(host).allocated(p.spec_addr())
                            &&& final(host).is_live(p.spec_addr())
                            &&& !final(host).guarded(p.spec_addr())
                        },
                        None => false,
                    }
                    &&& final(host).spec_next() == old(host).spec_next() + 1
                    &&& final(host).freed_log() == old(host).freed_log()
                    &&& final(host).slot_seq() == old(host).slot_seq()
                } else {
                    &&& r is None
                    &&& final(self).spec_context().spec_cursor() == cur
                    &&& *final(host) == *old(host)
                }
            }),
    {
        if self.context.cursor < self.context.packets.len() {
            let mut p = Packet::empty(host);
            let _r = p.read(&mut self.context);
            Some(p)
        } else {
            None
        }
    }

    /// Give the input handle back.
    pub fn into_inner(self) -> (c: InputContext)
        ensures
            c == self.spec_context(),
    {
        self.context
    }
}

/// Open the media registered under `filename`, as the foreign open
/// call followed by stream probing does.  Succeeds exactly when the
/// store reaches a source under that name; a missing source is
/// refused with `OpenInputFailed` and the not-found code.
pub fn open(host: &mut Host, store: &MediaStore, filename: &str) -> (r: Result<
    InputContext,
    Error,
>)
    requires
        old(host).wf(),
        old(host).can_alloc(1),
        store.wf(),
    ensures
        final(host).wf(),
        if spec_has_source(store.spec_sources(), filename@) {
            match r {
                Ok(c) => exists|i: int|
                    {
                        &&& #[trigger] spec_first_source(store.spec_sources(), filename@, i)
                        &&& opened_from(c, store.spec_sources()[i], *old(host), *final(host))
                    },
                Err(_) => false,
            }
        } else {
            r matches Err(e) && e == Error::OpenInputFailed(CODE_NOT_FOUND) && *final(host) == *old(host)
        },
{
    open_input(host, store, filename, None)
}

/// Open the media registered under `filename` with an explicit
/// demuxer.  Succeeds exactly when the store reaches a source under
/// that name whose format carries the demuxer's name; a demuxer
/// mismatch is refused with `OpenInputFailed` and the invalid code.
pub fn open_with_format(
    host: &mut Host,
    store: &MediaStore,
    filename: &str,
    input_format: &InputFormat,
) -> (r: Result<InputContext, Error>)
    requires
        old(host).wf(),
        old(host).can_alloc(1),
        store.wf(),
    ensures
        final(host).wf(),
        if spec_has_source(store.spec_sources(), filename@) {
            exists|i: int|
                {
                    &&& #[trigger] spec_first_source(store.spec_sources(), filename@, i)
                    &&& if store.spec_sources()[i].format.spec_name()
                        == input_format.spec_name() {
                        match r {
                            Ok(c) => opened_from(
                                c,
                                store.spec_sources()[i],
                                *old(host),
                                *final(host),
                            ),
                            Err(_) => false,
                        }
                    } else {
                        r matches Err(e) && e == Error::OpenInputFailed(CODE_INVALID) && *final(host) == *old(host)
                    }
                }
        } else {
            r matches Err(e) && e == Error::OpenInputFailed(CODE_NOT_FOUND) && *final(host) == *old(host)
        },
{
    open_input(host, store, filename, Some(input_format))
}

/// What a successful open hands back: a well-formed input over a
/// fresh, destructor-guarded allocation, carrying the source's
/// demuxed shape, with no packet read yet.
pub open spec fn opened_from(c: InputContext, src: Source, pre: Host, post: Host) -> bool {
    &&& c.wf()
    &&& c.valid(&post)
    &&& c.spec_format().spec_name() == src.format.spec_name()
    &&& c.spec_context().spec_bit_rate() == src.bit_rate
    &&& c.spec_context().spec_duration() == src.duration
    &&& c.spec_context().spec_streams().len() == src.streams@.len()
    &&& forall|k: int|
        0 <= k < src.streams@.len() ==> stream_data_eq(
            #[trigger] c.spec_context().spec_streams()[k],
            src.streams@[k],
        )
    &&& c.spec_packets() == src.packets@
    &&& c.spec_cursor() == 0
    &&& !pre.allocated(c.spec_context().spec_addr())
    &&& post.is_live(c.spec_context().spec_addr())
    &&& c.spec_context().spec_dtor().slot_id() == pre.num_slots()
    &&& post.num_slots() == pre.num_slots() + 1
    &&& post.slot_count(c.spec_context().spec_dtor().slot_id()) == 1
    &&& post.freed_log() == pre.freed_log()
    &&& post.spec_next() == pre.spec_next() + 1
}

/// The shared open path: find the source, check the demuxer when one
/// is forced, allocate the foreign context, and assemble the handle.
fn open_input(
    host: &mut Host,
    store: &MediaStore,
    filename: &str,
    forced: Option<&InputFormat>,
) -> (r: Result<InputContext, Error>)
    requires
        old(host).wf(),
        old(host).can_alloc(1),
        store.wf(),
    ensures
        final(host).wf(),
        if spec_has_source(store.spec_sources(), filename@) {
            exists|i: int|
                {
                    &&& #[trigger] spec_first_source(store.spec_sources(), filename@, i)
                    &&& ({
                        let ok = match forced {
                            Some(f) => store.spec_sources()[i].format.spec_name()
                                == f.spec_name(),
                            None => true,
                        };
                        if ok {
                            match r {
                                Ok(c) => opened_from(
                                    c,
                                    store.spec_sources()[i],
                                    *old(host),
                                    *final(host),
                                ),
                                Err(_) => false,
                            }
                        } else {
                            r matches Err(e) && e == Error::OpenInputFailed(CODE_INVALID)
                                && *final(host) == *old(host)
                        }
                    })
                }
        } else {
            r matches Err(e) && e == Error::OpenInputFailed(CODE_NOT_FOUND) && *final(host) == *old(host)
        },
{
    let needle = filename.to_owned();
    let n = store.sources.len();
    let mut i: usize = 0;
    while i < n
        invariant
            store.wf(),
            old(host).wf(),
            old(host).can_alloc(1),
            *host == *old(host),
            n == store.spec_sources().len(),
            i <= n,
            needle@ == filename@,
            forall|j: int| 0 <= j < i ==> (#[trigger] store.spec_sources()[j].path@) != filename@,
        decreases n - i,
    {
        if store.sources[i].path == needle {
            proof {
                assert(spec_first_source(store.spec_sources(), filename@, i as int));
            }
            let src = &store.sources[i];
            match forced {
                Some(f) => {
                    if !(*f.name() == *src.format.name()) {
                        return Err(Error::OpenInputFailed(CODE_INVALID));
                    }
                },
                None => {},
            }
            proof {
                assert(source_wf(store.spec_sources()[i as int]));
            }
            let addr = host.allocate();
            let streams = copy_streams(&src.streams);
            proof {
                assert forall|k: int|
                    0 <= k < streams@.len()
                    implies stream_data_wf(#[trigger] streams@[k]) by {
                    assert(stream_data_eq(streams@[k], src.streams@[k]));
                    assert(stream_data_wf(src.streams@[k]));
                }
            }
            let ctx = Context::assemble(host, addr, src.bit_rate, src.duration, streams);
            let packets = copy_packets(&src.packets);
            let opened = InputContext { ctx, fmt: src.format.duplicate(), packets, cursor: 0 };
            proof {
                assert(opened.wf());
                assert(opened_from(opened, store.spec_sources()[i as int], *old(host), *host));
            }
            return Ok(opened);
        }
        i = i + 1;
    }
    proof {
        if spec_has_source(store.spec_sources(), filename@) {
            let j = choose|j: int|
                0 <= j < store.spec_sources().len() && (#[trigger] store.spec_sources()[j].path@)
                    == filename@;
            assert(false);
        }
    }
    Err(Error::OpenInputFailed(CODE_NOT_FOUND))
}

/// An independent copy of a stream table.
fn copy_streams(v: &Vec<StreamData>) -> (r: Vec<StreamData>)
    ensures
        r@.len() == v@.len(),
        forall|i: int| 0 <= i < v@.len() ==> stream_data_eq(#[trigger] r@[i], v@[i]),
{
    let mut r: Vec<StreamData> = Vec::new();
    let n = v.len();
    let mut i: usize = 0;
    while i < n
        invariant
            n == v@.len(),
            i <= n,
            r@.len() == i,
            forall|j: int| 0 <= j < i ==> stream_data_eq(#[trigger] r@[j], v@[j]),
        decreases n - i,
    {
        r.push(v[i].duplicate());
        i = i + 1;
    }
    r
}

/// An independent copy of a packet table.
fn copy_packets(v: &Vec<PacketData>) -> (r: Vec<PacketData>)
    ensures
        r@ == v@,
{
    let mut r: Vec<PacketData> = Vec::new();
    let n = v.len();
    let mut i: usize = 0;
    while i < n
        invariant
            n == v@.len(),
            i <= n,
            r@ =~= v@.take(i as int),
        decreases n - i,
    {
        r.push(v[i]);
        proof {
            assert(r@ =~= v@.take(i as int + 1));
        }
        i = i + 1;
    }
    proof {
        assert(v@.take(n as int) =~= v@);
    }
    r
}

} // verus!
