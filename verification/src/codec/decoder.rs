//! Decoders: the open / send / receive / drain state machine over a
//! codec context.
//!
//! A decoder is opened, fed packets, and asked for frames.  After an
//! end-of-stream signal it is draining: receiving then yields each
//! buffered frame in turn and finally the distinguished `Drained`
//! signal -- never a generic error.

use vstd::prelude::*;

use crate::codec::codec::Codec;
use crate::codec::codec_id::CodecId;
use crate::codec::context::Context;
use crate::error::{Error, CODE_EOF, CODE_INVALID};
use crate::format::packet::Packet;
use crate::host::Host;
use crate::util::channel_layout::ChannelLayout;
use crate::util::dict::Dictionary;
use crate::util::frame::Frame;
use crate::util::samplefmt::SampleFormat;

verus! {

/// What one buffered decoded frame will carry.
#[derive(Copy, Clone, Debug, PartialEq, Eq, Structural)]
pub struct FramePlan {
    pub format: SampleFormat,
    pub layout: ChannelLayout,
    pub samples: i32,
}

/// How many whole samples a packet of `size` bytes decodes to for the
/// given sample format and channel count; zero when the parameters
/// describe no sample layout at all.
pub open spec fn spec_decoded_samples(format: SampleFormat, channels: i32, size: i32) -> int {
    let denom = format.spec_bytes() as int * channels as int;
    if denom <= 0 || size < 0 {
        0
    } else {
        size as int / denom
    }
}

/// The frame a context decodes from a packet of `size` bytes.
pub open spec fn spec_decoded_plan(context: Context, size: i32) -> FramePlan {
    FramePlan {
        format: context.spec_format(),
        layout: context.spec_layout(),
        samples: spec_decoded_samples(
            context.spec_format(),
            context.spec_layout().spec_channels(),
            size,
        ) as i32,
    }
}

/// Every plan the decode model buffers is small enough to realise as
/// a frame buffer: non-negative counts whose total byte size fits the
/// 32-bit range, because it never exceeds the packet size it was
/// decoded from.
pub open spec fn plan_wf(p: FramePlan) -> bool {
    &&& p.samples >= 0
    &&& p.layout.spec_channels() >= 0
    &&& p.samples as int * p.layout.spec_channels() as int * p.format.spec_bytes() as int
        <= i32::MAX as int
}

/// One step of draining a decoder after end-of-stream.
#[derive(Copy, Clone, Debug, PartialEq, Eq, Structural)]
pub enum DrainStep {
    Frame(FramePlan),
    Drained,
}

/// The whole trace draining produces from a buffer of pending frames:
/// each receive call pops the front frame until the buffer is empty,
/// and the next call reports `Drained`.
pub open spec fn spec_drain_steps(pending: Seq<FramePlan>) -> Seq<DrainStep>
    decreases pending.len(),
{
    if pending.len() == 0 {
        seq![DrainStep::Drained]
    } else {
        seq![DrainStep::Frame(pending[0])] + spec_drain_steps(pending.drop_first())
    }
}

/// Draining after end-of-stream yields exactly the buffered frames, in
/// order, followed by the drained signal -- and nothing else: no step
/// of the trace is a failure.
pub proof fn lemma_drain_after_eof(pending: Seq<FramePlan>)
    ensures
        spec_drain_steps(pending).len() == pending.len() + 1,
        forall|i: int|
            0 <= i < pending.len() ==> spec_drain_steps(pending)[i] == DrainStep::Frame(
                pending[i],
            ),
        spec_drain_steps(pending)[pending.len() as int] == DrainStep::Drained,
    decreases pending.len(),
{
    if pending.len() > 0 {
        lemma_drain_after_eof(pending.drop_first());
        let tail = spec_drain_steps(pending.drop_first());
        assert forall|i: int|
            0 <= i < pending.len()
            implies spec_drain_steps(pending)[i] == DrainStep::Frame(pending[i]) by {
            if i > 0 {
                assert(tail[i - 1] == DrainStep::Frame(pending.drop_first()[i - 1]));
            }
        }
    }
}

/// A decoder over a codec context.
///
/// The state machine: closed until `open_as` (or `open`) succeeds;
/// open and accepting packets until `send_eof`; draining afterwards.
/// Decode work that the foreign library would buffer is modelled by
/// the pending frame queue.
pub struct Decoder {
    context: Context,
    opened: bool,
    draining: bool,
    pending: Vec<FramePlan>,
}

impl Decoder {
    pub closed spec fn spec_context(&self) -> Context {
        self.context
    }

    /// Whether a codec has been opened on the context.
    pub closed spec fn spec_open(&self) -> bool {
        self.opened
    }

    /// Whether end-of-stream has been signalled.
    pub closed spec fn spec_draining(&self) -> bool {
        self.draining
    }

    /// The decoded frames buffered and not yet received.
    pub closed spec fn spec_pending(&self) -> Seq<FramePlan> {
        self.pending@
    }

    /// Every buffered plan can be realised as a frame buffer.
    pub open spec fn wf(&self) -> bool {
        forall|i: int|
            0 <= i < self.spec_pending().len() ==> plan_wf(#[trigger] self.spec_pending()[i])
    }

    /// A decoder over `context`, not yet opened.
    pub(crate) fn from_context(context: Context) -> (d: Decoder)
        ensures
            d.wf(),
            d.spec_context() == context,
            !d.spec_open(),
            !d.spec_draining(),
            d.spec_pending().len() == 0,
    {
        Decoder { context, opened: false, draining: false, pending: Vec::new() }
    }

    /// The underlying codec context.
    pub fn context(&self) -> (c: &Context)
        ensures
            *c == self.spec_context(),
    {
        &self.context
    }

    /// The attached codec's identifier.
    pub fn id(&self) -> (id: CodecId)
        ensures
            id == self.spec_context().spec_codec_id(),
    {
        self.context.id()
    }

    /// Open the codec already attached to the context.  Succeeds
    /// exactly when a codec is attached; a context without one is
    /// refused with `OpenCodecFailed`.
    pub fn open(&mut self) -> (r: Result<(), Error>)
        requires
            old(self).wf(),
        ensures
            final(self).wf(),
            final(self).spec_context() == old(self).spec_context(),
            final(self).spec_draining() == old(self).spec_draining(),
            final(self).spec_pending() == old(self).spec_pending(),
            if old(self).spec_context().spec_codec_id() == CodecId::NONE {
                r == Err::<(), Error>(Error::OpenCodecFailed(CODE_INVALID)) && final(self).spec_open() == old(self).spec_open()
            } else {
                r is Ok && final(self).spec_open()
            },
    {
        if matches!(self.context.id(), CodecId::NONE) {
            Err(Error::OpenCodecFailed(CODE_INVALID))
        } else {
            self.opened = true;
            proof {
                assert forall|i: int|
                    0 <= i < self.spec_pending().len()
                    implies plan_wf(#[trigger] self.spec_pending()[i]) by {
                    assert(plan_wf(old(self).spec_pending()[i]));
                }
            }
            Ok(())
        }
    }

    /// Open `codec` on the context, attaching it.  Succeeds exactly
    /// when the codec can decode.
    pub fn open_as(&mut self, codec: &Codec) -> (r: Result<(), Error>)
        requires
            old(self).wf(),
        ensures
            final(self).wf(),
            final(self).spec_draining() == old(self).spec_draining(),
            final(self).spec_pending() == old(self).spec_pending(),
            if codec.spec_is_decoder() {
                &&& r is Ok
                &&& final(self).spec_open()
                &&& final(self).spec_context().spec_codec_id() == codec.spec_id()
                &&& final(self).spec_context().spec_addr() == old(self).spec_context().spec_addr()
                &&& final(self).spec_context().spec_owner() == old(self).spec_context().spec_owner()
                &&& final(self).spec_context().spec_sample_rate() == old(self).spec_context().spec_sample_rate()
                &&& final(self).spec_context().spec_layout() == old(self).spec_context().spec_layout()
                &&& final(self).spec_context().spec_format() == old(self).spec_context().spec_format()
            } else {
                r == Err::<(), Error>(Error::OpenCodecFailed(CODE_INVALID)) && *final(self) == *old(self)
            },
    {
        if codec.is_decoder() {
            self.context.set_codec_id(codec.id());
            self.opened = true;
            proof {
                assert forall|i: int|
                    0 <= i < self.spec_pending().len()
                    implies plan_wf(#[trigger] self.spec_pending()[i]) by {
                    assert(plan_wf(old(self).spec_pending()[i]));
                }
            }
            Ok(())
        } else {
            Err(Error::OpenCodecFailed(CODE_INVALID))
        }
    }

    /// Open `codec` on the context with an options dictionary.  The
    /// model consumes the options without reading them.
    pub fn open_as_with(&mut self, codec: &Codec, options: Dictionary) -> (r: Result<(), Error>)
        requires
            old(self).wf(),
        ensures
            final(self).wf(),
            final(self).spec_draining() == old(self).spec_draining(),
            final(self).spec_pending() == old(self).spec_pending(),
            if codec.spec_is_decoder() {
                r is Ok && final(self).spec_open() && final(self).spec_context().spec_codec_id()
                    == codec.spec_id()
            } else {
                r == Err::<(), Error>(Error::OpenCodecFailed(CODE_INVALID)) && *final(self) == *old(self)
            },
    {
        let _ = options;
        self.open_as(codec)
    }

    /// Turn this decoder into an audio decoder by looking up and
    /// opening the decoder for the attached codec.  Fails with
    /// `DecoderNotFound`, handing the decoder back untouched, exactly
    /// when no codec is attached.
    pub fn audio(self) -> (r: Result<Audio, (Decoder, Error)>)
        requires
            self.wf(),
        ensures
            match r {
                Ok(a) => {
                    &&& a.spec_decoder().wf()
                    &&& self.spec_context().spec_codec_id() != CodecId::NONE
                    &&& a.spec_decoder().spec_open()
                    &&& a.spec_decoder().spec_draining() == self.spec_draining()
                    &&& a.spec_decoder().spec_pending() == self.spec_pending()
                    &&& a.spec_decoder().spec_context().spec_codec_id() == self.spec_context()
                        .spec_codec_id()
                    &&& a.spec_decoder().spec_context().spec_addr() == self.spec_context()
                        .spec_addr()
                    &&& a.spec_decoder().spec_context().spec_owner() == self.spec_context()
                        .spec_owner()
                },
                Err((d, e)) => {
                    &&& d.wf()
                    &&& self.spec_context().spec_codec_id() == CodecId::NONE
                    &&& e == Error::DecoderNotFound
                    &&& d == self
                },
            },
    {
        let mut this = self;
        match crate::codec::find(this.context.id()) {
            Some(codec) => {
                // Every codec the registry hands out can decode, so
                // attaching it cannot fail.
                let _ = this.open_as(&codec);
                Ok(Audio(this))
            },
            None => Err((this, Error::DecoderNotFound)),
        }
    }

    /// Submit a packet for decoding.  Requires an open decoder
    /// (`DecoderNotOpen` otherwise) that is not draining (a send after
    /// end-of-stream is refused with the end-of-stream code); on
    /// success the decoded frame joins the pending queue.
    pub fn send_packet(&mut self, packet: &Packet) -> (r: Result<(), Error>)
        requires
            old(self).wf(),
        ensures
            final(self).wf(),
            final(self).spec_context() == old(self).spec_context(),
            final(self).spec_open() == old(self).spec_open(),
            final(self).spec_draining() == old(self).spec_draining(),
            if !old(self).spec_open() {
                r == Err::<(), Error>(Error::DecoderNotOpen) && final(self).spec_pending() == old(self).spec_pending()
            } else if old(self).spec_draining() {
                r == Err::<(), Error>(Error::SendPacketFailed(CODE_EOF)) && final(self).spec_pending() == old(self).spec_pending()
            } else {
                r is Ok && final(self).spec_pending() == old(self).spec_pending().push(
                    spec_decoded_plan(old(self).spec_context(), packet.spec_size()),
                )
            },
    {
        if !self.opened {
            Err(Error::DecoderNotOpen)
        } else if self.draining {
            Err(Error::SendPacketFailed(CODE_EOF))
        } else {
            let plan = self.decode_plan(packet.size());
            self.pending.push(plan);
            proof {
                assert forall|i: int|
                    0 <= i < self.spec_pending().len()
                    implies plan_wf(#[trigger] self.spec_pending()[i]) by {
                    if i < old(self).spec_pending().len() {
                        assert(plan_wf(old(self).spec_pending()[i]));
                    } else {
                        assert(self.spec_pending()[i] == plan);
                    }
                }
            }
            Ok(())
        }
    }

    /// Signal end-of-stream, switching the decoder into draining.
    /// Requires an open decoder; a second signal is refused with the
    /// end-of-stream code, as the foreign call refuses it.
    pub fn send_eof(&mut self) -> (r: Result<(), Error>)
        requires
            old(self).wf(),
        ensures
            final(self).wf(),
            final(self).spec_context() == old(self).spec_context(),
            final(self).spec_open() == old(self).spec_open(),
            final(self).spec_pending() == old(self).spec_pending(),
            if !old(self).spec_open() {
                r == Err::<(), Error>(Error::DecoderNotOpen) && final(self).spec_draining() == old(self).spec_draining()
            } else if old(self).spec_draining() {
                r == Err::<(), Error>(Error::SendPacketFailed(CODE_EOF)) && final(self).spec_draining()
            } else {
                r is Ok && final(self).spec_draining()
            },
    {
        if !self.opened {
            Err(Error::DecoderNotOpen)
        } else if self.draining {
            Err(Error::SendPacketFailed(CODE_EOF))
        } else {
            self.draining = true;
            proof {
                assert forall|i: int|
                    0 <= i < self.spec_pending().len()
                    implies plan_wf(#[trigger] self.spec_pending()[i]) by {
                    assert(plan_wf(old(self).spec_pending()[i]));
                }
            }
            Ok(())
        }
    }

    /// Receive the next decoded frame into `frame`.  Requires an open
    /// decoder (`DecoderNotOpen` otherwise).  With a pending frame the
    /// front of the queue is written into `frame`; with none, a
    /// draining decoder reports the distinguished `Drained` and one
    /// still accepting input reports `Again` -- neither is a generic
    /// failure.
    pub fn receive_frame(&mut self, frame: &mut Frame) -> (r: Result<(), Error>)
        requires
            old(self).wf(),
            old(frame).wf(),
        ensures
            final(self).wf(),
            final(frame).wf(),
            final(self).spec_context() == old(self).spec_context(),
            final(self).spec_open() == old(self).spec_open(),
            final(self).spec_draining() == old(self).spec_draining(),
            final(frame).spec_addr() == old(frame).spec_addr(),
            if !old(self).spec_open() {
                &&& r == Err::<(), Error>(Error::DecoderNotOpen)
                &&& final(self).spec_pending() == old(self).spec_pending()
                &&& *final(frame) == *old(frame)
            } else if old(self).spec_pending().len() > 0 {
                &&& r is Ok
                &&& final(self).spec_pending() == old(self).spec_pending().drop_first()
                &&& final(frame).spec_format() == old(self).spec_pending()[0].format
                &&& final(frame).spec_samples() == old(self).spec_pending()[0].samples
                &&& final(frame).spec_layout() == old(self).spec_pending()[0].layout
            } else if old(self).spec_draining() {
                &&& r == Err::<(), Error>(Error::Drained)
                &&& final(self).spec_pending() == old(self).spec_pending()
                &&& *final(frame) == *old(frame)
            } else {
                &&& r == Err::<(), Error>(Error::Again)
                &&& final(self).spec_pending() == old(self).spec_pending()
                &&& *final(frame) == *old(frame)
            },
    {
        if !self.opened {
            Err(Error::DecoderNotOpen)
        } else if self.pending.len() > 0 {
            let plan = self.pending.remove(0);
            proof {
                assert(self.pending@ =~= old(self).spec_pending().drop_first());
                assert(plan_wf(old(self).spec_pending()[0]));
                assert forall|i: int|
                    0 <= i < self.spec_pending().len()
                    implies plan_wf(#[trigger] self.spec_pending()[i]) by {
                    assert(self.spec_pending()[i] == old(self).spec_pending()[i + 1]);
                    assert(plan_wf(old(self).spec_pending()[i + 1]));
                }
            }
            frame.write_decoded(plan.format, plan.samples, plan.layout);
            Ok(())
        } else if self.draining {
            Err(Error::Drained)
        } else {
            Err(Error::Again)
        }
    }

    /// The frame a packet of `size` bytes decodes to under the
    /// current context parameters.
    fn decode_plan(&self, size: i32) -> (p: FramePlan)
        ensures
            p == spec_decoded_plan(self.spec_context(), size),
            plan_wf(p),
    {
        let format = self.context.format();
        let layout = self.context.channel_layout();
        let channels = layout.nb_channels();
        proof {
            assert(format.spec_bytes() <= 8);
        }
        let b: i64 = format.bytes() as i64;
        let c: i64 = channels as i64;
        proof {
            assert(b * c <= 8 * 0x7FFF_FFFFi64 && b * c >= 8 * (-0x8000_0000i64))
                by (nonlinear_arith)
                requires
                    0 <= b <= 8,
                    -0x8000_0000 <= c <= 0x7FFF_FFFF,
            ;
        }
        let denom: i64 = b * c;
        let samples: i32 = if denom <= 0 || size < 0 {
            0
        } else {
            proof {
                vstd::arithmetic::div_mod::lemma_fundamental_div_mod(size as int, denom as int);
                vstd::arithmetic::div_mod::lemma_mod_bound(size as int, denom as int);
                vstd::arithmetic::div_mod::lemma_div_pos_is_pos(size as int, denom as int);
                let q = size as int / denom as int;
                assert(q * (denom as int) <= size as int);
                assert(q <= q * (denom as int)) by (nonlinear_arith)
                    requires
                        q >= 0,
                        denom as int >= 1,
                ;
            }
            ((size as i64) / denom) as i32
        };
        proof {
            let q = samples as int;
            if denom > 0 && size >= 0 {
                assert(q == size as int / denom as int);
                assert(q >= 0 && q * (denom as int) <= size as int);
                assert(q * (c as int) * (b as int) == q * ((b as int) * (c as int)))
                    by (nonlinear_arith);
            } else {
                assert(q == 0);
                assert(q * (c as int) * (b as int) == 0) by (nonlinear_arith)
                    requires
                        q == 0,
                ;
            }
        }
        FramePlan { format, layout, samples }
    }

    /// Close the decoder, releasing its codec context; see
    /// [`Context::close`].
    pub fn close(self, host: &mut Host)
        requires
            old(host).wf(),
            self.spec_context().can_close(old(host)),
        ensures
            final(host).wf(),
            final(host).spec_next() == old(host).spec_next(),
            old(host).freed_log().is_prefix_of(final(host).freed_log()),
            self.spec_context().spec_owner() is None ==> final(host).free_count(
                self.spec_context().spec_addr(),
            ) == 1 && !final(host).is_live(self.spec_context().spec_addr()),
    {
        self.context.close(host);
    }
}

/// An audio decoder: a decoder whose context carries audio
/// parameters.
pub struct Audio(pub Decoder);

impl Audio {
    pub open spec fn spec_decoder(&self) -> Decoder {
        self.0
    }

    /// The sample rate of the decoded audio.
    pub fn rate(&self) -> (r: i32)
        ensures
            r == self.spec_decoder().spec_context().spec_sample_rate(),
    {
        self.0.context.sample_rate()
    }

    /// Set the sample rate on the context.
    pub fn set_rate(&mut self, rate: i32)
        ensures
            final(self).spec_decoder().spec_context().spec_sample_rate() == rate,
            final(self).spec_decoder().spec_context().spec_codec_id() == old(self).spec_decoder().spec_context().spec_codec_id(),
            final(self).spec_decoder().spec_open() == old(self).spec_decoder().spec_open(),
            final(self).spec_decoder().spec_draining() == old(self).spec_decoder().spec_draining(),
            final(self).spec_decoder().spec_pending() == old(self).spec_decoder().spec_pending(),
    {
        self.0.context.set_sample_rate(rate);
    }

    /// The number of channels of the decoded audio.
    pub fn channels(&self) -> (c: i32)
        ensures
            c == self.spec_decoder().spec_context().spec_layout().spec_channels(),
    {
        self.0.context.channel_layout().nb_channels()
    }

    /// The sample format of the decoded audio.
    pub fn format(&self) -> (f: SampleFormat)
        ensures
            f == self.spec_decoder().spec_context().spec_format(),
    {
        self.0.context.format()
    }

    /// How many frames the context has produced.
    pub fn frames(&self) -> (n: i64)
        ensures
            n == self.spec_decoder().spec_context().spec_frame_count(),
    {
        self.0.context.frame_count()
    }

    /// The block alignment of the stream.
    pub fn align(&self) -> (a: i32)
        ensures
            a == self.spec_decoder().spec_context().spec_block_align(),
    {
        self.0.context.block_align()
    }

    /// The channel layout of the decoded audio.
    pub fn channel_layout(&self) -> (l: ChannelLayout)
        ensures
            l == self.spec_decoder().spec_context().spec_layout(),
    {
        self.0.context.channel_layout()
    }

    /// The number of samples per audio frame.
    pub fn frame_size(&self) -> (s: i32)
        ensures
            s == self.spec_decoder().spec_context().spec_frame_size(),
    {
        self.0.context.frame_size()
    }

    /// Set the channel layout on the context.
    pub fn set_channel_layout(&mut self, layout: ChannelLayout)
        ensures
            final(self).spec_decoder().spec_context().spec_layout() == layout,
            final(self).spec_decoder().spec_open() == old(self).spec_decoder().spec_open(),
            final(self).spec_decoder().spec_draining() == old(self).spec_decoder().spec_draining(),
            final(self).spec_decoder().spec_pending() == old(self).spec_decoder().spec_pending(),
    {
        self.0.context.set_channel_layout(layout);
    }

    /// Ask the decoder to prefer `format` for its output.
    pub fn set_request_sample_fmt(&mut self, format: SampleFormat)
        ensures
            final(self).spec_decoder().spec_context().spec_request_format() == format,
            final(self).spec_decoder().spec_open() == old(self).spec_decoder().spec_open(),
            final(self).spec_decoder().spec_draining() == old(self).spec_decoder().spec_draining(),
            final(self).spec_decoder().spec_pending() == old(self).spec_decoder().spec_pending(),
    {
        self.0.context.set_request_format(format);
    }

    /// Submit a packet; see [`Decoder::send_packet`].
    pub fn send_packet(&mut self, packet: &Packet) -> (r: Result<(), Error>)
        requires
            old(self).spec_decoder().wf(),
        ensures
            final(self).spec_decoder().wf(),
            final(self).spec_decoder().spec_open() == old(self).spec_decoder().spec_open(),
            final(self).spec_decoder().spec_draining() == old(self).spec_decoder().spec_draining(),
            if !old(self).spec_decoder().spec_open() {
                r == Err::<(), Error>(Error::DecoderNotOpen) && final(self).spec_decoder().spec_pending() == old(self).spec_decoder().spec_pending()
            } else if old(self).spec_decoder().spec_draining() {
                r == Err::<(), Error>(Error::SendPacketFailed(CODE_EOF)) && final(self).spec_decoder().spec_pending() == old(self).spec_decoder().spec_pending()
            } else {
                r is Ok && final(self).spec_decoder().spec_pending() == old(self).spec_decoder().spec_pending().push(
                    spec_decoded_plan(old(self).spec_decoder().spec_context(), packet.spec_size()),
                )
            },
    {
        self.0.send_packet(packet)
    }

    /// Signal end-of-stream; see [`Decoder::send_eof`].
    pub fn send_eof(&mut self) -> (r: Result<(), Error>)
        requires
            old(self).spec_decoder().wf(),
        ensures
            final(self).spec_decoder().wf(),
            final(self).spec_decoder().spec_open() == old(self).spec_decoder().spec_open(),
            final(self).spec_decoder().spec_pending() == old(self).spec_decoder().spec_pending(),
            if !old(self).spec_decoder().spec_open() {
                r == Err::<(), Error>(Error::DecoderNotOpen) && final(self).spec_decoder().spec_draining() == old(self).spec_decoder().spec_draining()
            } else if old(self).spec_decoder().spec_draining() {
                r == Err::<(), Error>(Error::SendPacketFailed(CODE_EOF)) && final(self).spec_decoder().spec_draining()
            } else {
                r is Ok && final(self).spec_decoder().spec_draining()
            },
    {
        self.0.send_eof()
    }

    /// Receive the next decoded frame; see [`Decoder::receive_frame`].
    pub fn receive_frame(&mut self, frame: &mut Frame) -> (r: Result<(), Error>)
        requires
            old(self).spec_decoder().wf(),
            old(frame).wf(),
        ensures
            final(self).spec_decoder().wf(),
            final(frame).wf(),
            final(self).spec_decoder().spec_open() == old(self).spec_decoder().spec_open(),
            final(self).spec_decoder().spec_draining() == old(self).spec_decoder().spec_draining(),
            if !old(self).spec_decoder().spec_open() {
                r == Err::<(), Error>(Error::DecoderNotOpen) && final(self).spec_decoder().spec_pending() == old(self).spec_decoder().spec_pending()
            } else if old(self).spec_decoder().spec_pending().len() > 0 {
                &&& r is Ok
                &&& final(self).spec_decoder().spec_pending() == old(self).spec_decoder().spec_pending().drop_first()
                &&& final(frame).spec_format() == old(self).spec_decoder().spec_pending()[0].format
                &&& final(frame).spec_samples() == old(self).spec_decoder().spec_pending()[0].samples
            } else if old(self).spec_decoder().spec_draining() {
                r == Err::<(), Error>(Error::Drained) && final(self).spec_decoder().spec_pending()
                    == old(self).spec_decoder().spec_pending()
            } else {
                r == Err::<(), Error>(Error::Again) && final(self).spec_decoder().spec_pending()
                    == old(self).spec_decoder().spec_pending()
            },
    {
        self.0.receive_frame(frame)
    }

    /// Close the decoder; see [`Decoder::close`].
    pub fn close(self, host: &mut Host)
        requires
            old(host).wf(),
            self.spec_decoder().spec_context().can_close(old(host)),
        ensures
            final(host).wf(),
            old(host).freed_log().is_prefix_of(final(host).freed_log()),
    {
        self.0.close(host);
    }
}

} // verus!
