//! Frames: owning handles for foreign frame objects, and the typed
//! sample-buffer accessor for audio frames.
//!
//! A frame's sample buffers are interpreted through a runtime
//! (format, channel-count) pair.  The accessor validates the requested
//! plane index and sample type against that pair and fails with a typed
//! error -- it never hands back wrongly-shaped data and never panics.

use vstd::prelude::*;

use crate::error::Error;
use crate::host::Host;
use crate::util::channel_layout::ChannelLayout;
use crate::util::dict::{DictRef, Dictionary};
use crate::util::samplefmt::SampleFormat;

verus! {

/// The foreign library's "no timestamp" marker.
pub const AV_NOPTS_VALUE: i64 = i64::MIN;

/// The base encoding of one sample element.  Floating-point encodings
/// are handled by the foreign library alone and have no typed accessor
/// here.
#[derive(Copy, Clone, Debug, PartialEq, Eq, Structural)]
pub enum SampleKind {
    U8,
    I16,
    I32,
    I64,
}

impl SampleKind {
    /// The packed sample format carrying this encoding.
    pub open spec fn spec_packed_format(self) -> SampleFormat {
        match self {
            SampleKind::U8 => SampleFormat::U8,
            SampleKind::I16 => SampleFormat::S16,
            SampleKind::I32 => SampleFormat::S32,
            SampleKind::I64 => SampleFormat::S64,
        }
    }

    /// The planar sample format carrying this encoding.
    pub open spec fn spec_planar_format(self) -> SampleFormat {
        match self {
            SampleKind::U8 => SampleFormat::U8P,
            SampleKind::I16 => SampleFormat::S16P,
            SampleKind::I32 => SampleFormat::S32P,
            SampleKind::I64 => SampleFormat::S64P,
        }
    }

    /// The packed sample format carrying this encoding.
    pub fn packed_format(self) -> (f: SampleFormat)
        ensures
            f == self.spec_packed_format(),
    {
        match self {
            SampleKind::U8 => SampleFormat::U8,
            SampleKind::I16 => SampleFormat::S16,
            SampleKind::I32 => SampleFormat::S32,
            SampleKind::I64 => SampleFormat::S64,
        }
    }

    /// The planar sample format carrying this encoding.
    pub fn planar_format(self) -> (f: SampleFormat)
        ensures
            f == self.spec_planar_format(),
    {
        match self {
            SampleKind::U8 => SampleFormat::U8P,
            SampleKind::I16 => SampleFormat::S16P,
            SampleKind::I32 => SampleFormat::S32P,
            SampleKind::I64 => SampleFormat::S64P,
        }
    }
}

/// A requested element type for the sample accessor: a base encoding
/// and how many channel values one element bundles (1 for a scalar,
/// 2..=7 for a tuple of per-channel values).
#[derive(Copy, Clone, Debug, PartialEq, Eq, Structural)]
pub struct SampleType {
    pub kind: SampleKind,
    pub lanes: u8,
}

/// Whether `ty` is a valid interpretation of a buffer with the given
/// sample format and channel count: a scalar reads a packed buffer of
/// its encoding, or a planar buffer with a single channel; a tuple of
/// `n` values reads a planar buffer with exactly `n` channels.
pub open spec fn spec_sample_type_valid(ty: SampleType, format: SampleFormat, channels: i32) -> bool {
    if ty.lanes == 1 {
        format == ty.kind.spec_packed_format() || (format == ty.kind.spec_planar_format()
            && channels == 1)
    } else if 2 <= ty.lanes <= 7 {
        format == ty.kind.spec_planar_format() && channels == ty.lanes as i32
    } else {
        false
    }
}

/// The lookup function for the sample-type mapping table.
pub fn sample_type_valid(ty: SampleType, format: SampleFormat, channels: i32) -> (r: bool)
    ensures
        r == spec_sample_type_valid(ty, format, channels),
{
    if ty.lanes == 1 {
        format == ty.kind.packed_format() || (format == ty.kind.planar_format() && channels == 1)
    } else if 2 <= ty.lanes && ty.lanes <= 7 {
        format == ty.kind.planar_format() && channels == ty.lanes as i32
    } else {
        false
    }
}

/// An element type usable with the typed sample accessor: the scalar
/// carriers and the per-channel tuples up to seven channels.
pub trait Sample {
    /// The descriptor of this element type.
    spec fn spec_sample_type() -> SampleType;

    /// Whether this element type is a valid interpretation of a buffer
    /// with the given sample format and channel count.
    fn is_valid(format: SampleFormat, channels: i32) -> (r: bool)
        ensures
            r == spec_sample_type_valid(Self::spec_sample_type(), format, channels),
    ;
}

impl Sample for u8 {
    closed spec fn spec_sample_type() -> SampleType {
        SampleType { kind: SampleKind::U8, lanes: 1 }
    }

    fn is_valid(format: SampleFormat, channels: i32) -> (r: bool) {
        sample_type_valid(SampleType { kind: SampleKind::U8, lanes: 1 }, format, channels)
    }
}

impl Sample for (u8, u8) {
    closed spec fn spec_sample_type() -> SampleType {
        SampleType { kind: SampleKind::U8, lanes: 2 }
    }

    fn is_valid(format: SampleFormat, channels: i32) -> (r: bool) {
        sample_type_valid(SampleType { kind: SampleKind::U8, lanes: 2 }, format, channels)
    }
}

impl Sample for (u8, u8, u8) {
    closed spec fn spec_sample_type() -> SampleType {
        SampleType { kind: SampleKind::U8, lanes: 3 }
    }

    fn is_valid(format: SampleFormat, channels: i32) -> (r: bool) {
        sample_type_valid(SampleType { kind: SampleKind::U8, lanes: 3 }, format, channels)
    }
}

impl Sample for (u8, u8, u8, u8) {
    closed spec fn spec_sample_type() -> SampleType {
        SampleType { kind: SampleKind::U8, lanes: 4 }
    }

    fn is_valid(format: SampleFormat, channels: i32) -> (r: bool) {
        sample_type_valid(SampleType { kind: SampleKind::U8, lanes: 4 }, format, channels)
    }
}

impl Sample for (u8, u8, u8, u8, u8) {
    closed spec fn spec_sample_type() -> SampleType {
        SampleType { kind: SampleKind::U8, lanes: 5 }
    }

    fn is_valid(format: SampleFormat, channels: i32) -> (r: bool) {
        sample_type_valid(SampleType { kind: SampleKind::U8, lanes: 5 }, format, channels)
    }
}

impl Sample for (u8, u8, u8, u8, u8, u8) {
    closed spec fn spec_sample_type() -> SampleType {
        SampleType { kind: SampleKind::U8, lanes: 6 }
    }

    fn is_valid(format: SampleFormat, channels: i32) -> (r: bool) {
        sample_type_valid(SampleType { kind: SampleKind::U8, lanes: 6 }, format, channels)
    }
}

impl Sample for (u8, u8, u8, u8, u8, u8, u8) {
    closed spec fn spec_sample_type() -> SampleType {
        SampleType { kind: SampleKind::U8, lanes: 7 }
    }

    fn is_valid(format: SampleFormat, channels: i32) -> (r: bool) {
        sample_type_valid(SampleType { kind: SampleKind::U8, lanes: 7 }, format, channels)
    }
}

impl Sample for i16 {
    closed spec fn spec_sample_type() -> SampleType {
        SampleType { kind: SampleKind::I16, lanes: 1 }
    }

    fn is_valid(format: SampleFormat, channels: i32) -> (r: bool) {
        sample_type_valid(SampleType { kind: SampleKind::I16, lanes: 1 }, format, channels)
    }
}

impl Sample for (i16, i16) {
    closed spec fn spec_sample_type() -> SampleType {
        SampleType { kind: SampleKind::I16, lanes: 2 }
    }

    fn is_valid(format: SampleFormat, channels: i32) -> (r: bool) {
        sample_type_valid(SampleType { kind: SampleKind::I16, lanes: 2 }, format, channels)
    }
}

impl Sample for (i16, i16, i16) {
    closed spec fn spec_sample_type() -> SampleType {
        SampleType { kind: SampleKind::I16, lanes: 3 }
    }

    fn is_valid(format: SampleFormat, channels: i32) -> (r: bool) {
        sample_type_valid(SampleType { kind: SampleKind::I16, lanes: 3 }, format, channels)
    }
}

impl Sample for (i16, i16, i16, i16) {
    closed spec fn spec_sample_type() -> SampleType {
        SampleType { kind: SampleKind::I16, lanes: 4 }
    }

    fn is_valid(format: SampleFormat, channels: i32) -> (r: bool) {
        sample_type_valid(SampleType { kind: SampleKind::I16, lanes: 4 }, format, channels)
    }
}

impl Sample for (i16, i16, i16, i16, i16) {
    closed spec fn spec_sample_type() -> SampleType {
        SampleType { kind: SampleKind::I16, lanes: 5 }
    }

    fn is_valid(format: SampleFormat, channels: i32) -> (r: bool) {
        sample_type_valid(SampleType { kind: SampleKind::I16, lanes: 5 }, format, channels)
    }
}

impl Sample for (i16, i16, i16, i16, i16, i16) {
    closed spec fn spec_sample_type() -> SampleType {
        SampleType { kind: SampleKind::I16, lanes: 6 }
    }

    fn is_valid(format: SampleFormat, channels: i32) -> (r: bool) {
        sample_type_valid(SampleType { kind: SampleKind::I16, lanes: 6 }, format, channels)
    }
}

impl Sample for (i16, i16, i16, i16, i16, i16, i16) {
    closed spec fn spec_sample_type() -> SampleType {
        SampleType { kind: SampleKind::I16, lanes: 7 }
    }

    fn is_valid(format: SampleFormat, channels: i32) -> (r: bool) {
        sample_type_valid(SampleType { kind: SampleKind::I16, lanes: 7 }, format, channels)
    }
}

impl Sample for i32 {
    closed spec fn spec_sample_type() -> SampleType {
        SampleType { kind: SampleKind::I32, lanes: 1 }
    }

    fn is_valid(format: SampleFormat, channels: i32) -> (r: bool) {
        sample_type_valid(SampleType { kind: SampleKind::I32, lanes: 1 }, format, channels)
    }
}

impl Sample for (i32, i32) {
    closed spec fn spec_sample_type() -> SampleType {
        SampleType { kind: SampleKind::I32, lanes: 2 }
    }

    fn is_valid(format: SampleFormat, channels: i32) -> (r: bool) {
        sample_type_valid(SampleType { kind: SampleKind::I32, lanes: 2 }, format, channels)
    }
}

impl Sample for (i32, i32, i32) {
    closed spec fn spec_sample_type() -> SampleType {
        SampleType { kind: SampleKind::I32, lanes: 3 }
    }

    fn is_valid(format: SampleFormat, channels: i32) -> (r: bool) {
        sample_type_valid(SampleType { kind: SampleKind::I32, lanes: 3 }, format, channels)
    }
}

impl Sample for (i32, i32, i32, i32) {
    closed spec fn spec_sample_type() -> SampleType {
        SampleType { kind: SampleKind::I32, lanes: 4 }
    }

    fn is_valid(format: SampleFormat, channels: i32) -> (r: bool) {
        sample_type_valid(SampleType { kind: SampleKind::I32, lanes: 4 }, format, channels)
    }
}

impl Sample for (i32, i32, i32, i32, i32) {
    closed spec fn spec_sample_type() -> SampleType {
        SampleType { kind: SampleKind::I32, lanes: 5 }
    }

    fn is_valid(format: SampleFormat, channels: i32) -> (r: bool) {
        sample_type_valid(SampleType { kind: SampleKind::I32, lanes: 5 }, format, channels)
    }
}

impl Sample for (i32, i32, i32, i32, i32, i32) {
    closed spec fn spec_sample_type() -> SampleType {
        SampleType { kind: SampleKind::I32, lanes: 6 }
    }

    fn is_valid(format: SampleFormat, channels: i32) -> (r: bool) {
        sample_type_valid(SampleType { kind: SampleKind::I32, lanes: 6 }, format, channels)
    }
}

impl Sample for (i32, i32, i32, i32, i32, i32, i32) {
    closed spec fn spec_sample_type() -> SampleType {
        SampleType { kind: SampleKind::I32, lanes: 7 }
    }

    fn is_valid(format: SampleFormat, channels: i32) -> (r: bool) {
        sample_type_valid(SampleType { kind: SampleKind::I32, lanes: 7 }, format, channels)
    }
}

impl Sample for i64 {
    closed spec fn spec_sample_type() -> SampleType {
        SampleType { kind: SampleKind::I64, lanes: 1 }
    }

    fn is_valid(format: SampleFormat, channels: i32) -> (r: bool) {
        sample_type_valid(SampleType { kind: SampleKind::I64, lanes: 1 }, format, channels)
    }
}

impl Sample for (i64, i64) {
    closed spec fn spec_sample_type() -> SampleType {
        SampleType { kind: SampleKind::I64, lanes: 2 }
    }

    fn is_valid(format: SampleFormat, channels: i32) -> (r: bool) {
        sample_type_valid(SampleType { kind: SampleKind::I64, lanes: 2 }, format, channels)
    }
}

impl Sample for (i64, i64, i64) {
    closed spec fn spec_sample_type() -> SampleType {
        SampleType { kind: SampleKind::I64, lanes: 3 }
    }

    fn is_valid(format: SampleFormat, channels: i32) -> (r: bool) {
        sample_type_valid(SampleType { kind: SampleKind::I64, lanes: 3 }, format, channels)
    }
}

impl Sample for (i64, i64, i64, i64) {
    closed spec fn spec_sample_type() -> SampleType {
        SampleType { kind: SampleKind::I64, lanes: 4 }
    }

    fn is_valid(format: SampleFormat, channels: i32) -> (r: bool) {
        sample_type_valid(SampleType { kind: SampleKind::I64, lanes: 4 }, format, channels)
    }
}

impl Sample for (i64, i64, i64, i64, i64) {
    closed spec fn spec_sample_type() -> SampleType {
        SampleType { kind: SampleKind::I64, lanes: 5 }
    }

    fn is_valid(format: SampleFormat, channels: i32) -> (r: bool) {
        sample_type_valid(SampleType { kind: SampleKind::I64, lanes: 5 }, format, channels)
    }
}

impl Sample for (i64, i64, i64, i64, i64, i64) {
    closed spec fn spec_sample_type() -> SampleType {
        SampleType { kind: SampleKind::I64, lanes: 6 }
    }

    fn is_valid(format: SampleFormat, channels: i32) -> (r: bool) {
        sample_type_valid(SampleType { kind: SampleKind::I64, lanes: 6 }, format, channels)
    }
}

impl Sample for (i64, i64, i64, i64, i64, i64, i64) {
    closed spec fn spec_sample_type() -> SampleType {
        SampleType { kind: SampleKind::I64, lanes: 7 }
    }

    fn is_valid(format: SampleFormat, channels: i32) -> (r: bool) {
        sample_type_valid(SampleType { kind: SampleKind::I64, lanes: 7 }, format, channels)
    }
}

/// A typed view into one sample plane: the raw bytes and the number of
/// elements of the requested type they hold.
pub struct SampleView<'a> {
    bytes: &'a Vec<u8>,
    count: usize,
}

impl<'a> SampleView<'a> {
    pub closed spec fn spec_count(&self) -> usize {
        self.count
    }

    pub closed spec fn spec_bytes(&self) -> Seq<u8> {
        self.bytes@
    }

    /// How many elements of the requested type the plane holds.
    pub fn len(&self) -> (n: usize)
        ensures
            n == self.spec_count(),
    {
        self.count
    }

    /// The plane's raw bytes.
    pub fn bytes(&self) -> (b: &'a Vec<u8>)
        ensures
            b@ == self.spec_bytes(),
    {
        self.bytes
    }
}

/// An owning handle for a foreign frame object.
///
/// Destruction is the explicit [`Frame::close`], which consumes the
/// handle; a closed or moved-out frame cannot be touched again, so the
/// foreign free runs at most once per frame, and `close` runs it
/// exactly once.
pub struct Frame {
    addr: u64,
    format: SampleFormat,
    samples: i32,
    layout: ChannelLayout,
    sample_rate: i32,
    pts: i64,
    duration: i64,
    best_effort_timestamp: i64,
    metadata: Dictionary,
    data: Vec<Vec<u8>>,
}

impl Frame {
    /// The foreign address this handle owns.
    pub closed spec fn spec_addr(&self) -> u64 {
        self.addr
    }

    pub closed spec fn spec_format(&self) -> SampleFormat {
        self.format
    }

    pub closed spec fn spec_samples(&self) -> i32 {
        self.samples
    }

    pub closed spec fn spec_layout(&self) -> ChannelLayout {
        self.layout
    }

    pub open spec fn spec_channels(&self) -> i32 {
        self.spec_layout().spec_channels()
    }

    pub closed spec fn spec_sample_rate(&self) -> i32 {
        self.sample_rate
    }

    pub closed spec fn spec_pts(&self) -> i64 {
        self.pts
    }

    pub closed spec fn spec_duration(&self) -> i64 {
        self.duration
    }

    pub closed spec fn spec_best_effort_timestamp(&self) -> i64 {
        self.best_effort_timestamp
    }

    pub closed spec fn spec_metadata(&self) -> Seq<(String, String)> {
        self.metadata@
    }

    pub closed spec fn spec_data(&self) -> Seq<Seq<u8>> {
        Seq::new(self.data@.len(), |i: int| self.data@[i]@)
    }

    /// How many planes the buffer exposes: none without data, one for
    /// a packed layout, one per channel for a planar layout.
    pub open spec fn spec_planes(&self) -> int {
        if self.spec_data().len() == 0 {
            0
        } else if !self.spec_format().spec_is_planar() {
            1
        } else {
            self.spec_channels() as int
        }
    }

    /// The counts are non-negative, the metadata keys unique, and the
    /// buffer (when present) has the shape the format and channel
    /// count dictate.
    pub open spec fn wf(&self) -> bool {
        &&& self.spec_samples() >= 0
        &&& self.spec_channels() >= 0
        &&& crate::util::dict::spec_keys_unique(self.spec_metadata())
        &&& self.spec_data().len() == 0 || {
            let bytes = self.spec_format().spec_bytes() as int;
            if self.spec_format().spec_is_planar() {
                &&& self.spec_data().len() == self.spec_channels() as int
                &&& self.spec_channels() >= 1
                &&& forall|i: int|
                    0 <= i < self.spec_data().len() ==> #[trigger] self.spec_data()[i].len()
                        == self.spec_samples() as int * bytes
            } else {
                &&& self.spec_data().len() == 1
                &&& self.spec_data()[0].len() == self.spec_samples() as int
                    * self.spec_channels() as int * bytes
            }
        }
    }

    /// A fresh, empty frame wrapping a new foreign allocation: no
    /// buffer, no timestamps, no metadata.
    pub fn empty(host: &mut Host) -> (f: Frame)
        requires
            old(host).wf(),
            old(host).can_alloc(1),
        ensures
            final(host).wf(),
            f.wf(),
            !old(host).allocated(f.spec_addr()),
            final(host).is_live(f.spec_addr()),
            !final(host).guarded(f.spec_addr()),
            final(host).spec_next() == old(host).spec_next() + 1,
            final(host).freed_log() == old(host).freed_log(),
            final(host).slot_seq() == old(host).slot_seq(),
            f.spec_format() == SampleFormat::NONE,
            f.spec_samples() == 0,
            f.spec_channels() == 0,
            f.spec_sample_rate() == 0,
            f.spec_pts() == AV_NOPTS_VALUE,
            f.spec_duration() == 0,
            f.spec_best_effort_timestamp() == 0,
            f.spec_metadata().len() == 0,
            f.spec_data().len() == 0,
    {
        let addr = host.allocate();
        Frame {
            addr,
            format: SampleFormat::NONE,
            samples: 0,
            layout: ChannelLayout::default(0),
            sample_rate: 0,
            pts: AV_NOPTS_VALUE,
            duration: 0,
            best_effort_timestamp: 0,
            metadata: Dictionary::new(),
            data: Vec::new(),
        }
    }

    /// Release the foreign frame.  Consuming `self` makes a second
    /// free structurally impossible.
    pub fn close(self, host: &mut Host)
        requires
            old(host).wf(),
            old(host).is_live(self.spec_addr()),
            !old(host).guarded(self.spec_addr()),
        ensures
            final(host).wf(),
            final(host).freed_log() == old(host).freed_log().push(self.spec_addr()),
            final(host).free_count(self.spec_addr()) == 1,
            !final(host).is_live(self.spec_addr()),
            forall|b: u64|
                b != self.spec_addr() ==> final(host).is_live(b) == old(host).is_live(b),
            final(host).spec_next() == old(host).spec_next(),
            final(host).slot_seq() == old(host).slot_seq(),
    {
        host.free(self.addr);
    }

    /// Whether no sample buffer is attached.
    pub fn is_empty(&self) -> (r: bool)
        ensures
            r == (self.spec_data().len() == 0),
    {
        self.data.len() == 0
    }

    pub fn duration(&self) -> (d: i64)
        ensures
            d == self.spec_duration(),
    {
        self.duration
    }

    /// The presentation timestamp, or `None` when the frame carries
    /// the library's "no timestamp" marker.
    pub fn pts(&self) -> (r: Option<i64>)
        ensures
            self.spec_pts() == AV_NOPTS_VALUE ==> r is None,
            self.spec_pts() != AV_NOPTS_VALUE ==> r == Some(self.spec_pts()),
    {
        if self.pts == AV_NOPTS_VALUE {
            None
        } else {
            Some(self.pts)
        }
    }

    /// The frame's metadata, as a borrowed view.
    pub fn metadata(&self) -> (r: DictRef<'_>)
        ensures
            r@ == self.spec_metadata(),
    {
        self.metadata.as_ref()
    }

    pub fn best_effort_timestamp(&self) -> (t: i64)
        ensures
            t == self.spec_best_effort_timestamp(),
    {
        self.best_effort_timestamp
    }

    /// Overwrite this frame with decoded output: the given parameters
    /// and a zero-filled buffer of the shape they dictate, or no
    /// buffer at all when the parameters describe none (no format or
    /// no channels).  Timestamps and metadata are left as they were.
    pub fn write_decoded(&mut self, format: SampleFormat, samples: i32, layout: ChannelLayout)
        requires
            old(self).wf(),
            samples >= 0,
            layout.spec_channels() >= 0,
            samples as int * layout.spec_channels() as int * format.spec_bytes() as int
                <= usize::MAX as int,
        ensures
            final(self).wf(),
            final(self).spec_addr() == old(self).spec_addr(),
            final(self).spec_format() == format,
            final(self).spec_samples() == samples,
            final(self).spec_layout() == layout,
            final(self).spec_pts() == old(self).spec_pts(),
            final(self).spec_duration() == old(self).spec_duration(),
            final(self).spec_best_effort_timestamp() == old(self).spec_best_effort_timestamp(),
            final(self).spec_sample_rate() == old(self).spec_sample_rate(),
            final(self).spec_metadata() == old(self).spec_metadata(),
            (format != SampleFormat::NONE && layout.spec_channels() >= 1) ==> final(self).spec_planes() == if format.spec_is_planar() {
                layout.spec_channels() as int
            } else {
                1int
            },
            (format == SampleFormat::NONE || layout.spec_channels() < 1) ==> final(self).spec_data().len() == 0,
    {
        self.format = format;
        self.samples = samples;
        self.layout = layout;
        let bytes = format.bytes();
        let s = samples as usize;
        let c = layout.nb_channels() as usize;
        let mut data: Vec<Vec<u8>> = Vec::new();
        let none_format = matches!(format, SampleFormat::NONE);
        if !none_format && c >= 1 {
            if format.is_planar() {
                proof {
                    assert(s * bytes <= s * c * bytes) by (nonlinear_arith)
                        requires
                            c >= 1,
                            s >= 0,
                            bytes >= 0,
                    ;
                }
                let plane_len = s * bytes;
                let mut i: usize = 0;
                while i < c
                    invariant
                        i <= c,
                        data@.len() == i,
                        forall|j: int| 0 <= j < i ==> #[trigger] data@[j]@.len() == plane_len,
                    decreases c - i,
                {
                    data.push(zero_bytes(plane_len));
                    i = i + 1;
                }
            } else {
                proof {
                    assert(bytes >= 1);
                    assert(s * c <= s * c * bytes) by (nonlinear_arith)
                        requires
                            bytes >= 1,
                            s >= 0,
                            c >= 0,
                    ;
                }
                let plane_len = s * c * bytes;
                data.push(zero_bytes(plane_len));
            }
        }
        self.data = data;
        proof {
            if self.spec_data().len() > 0 {
                if self.spec_format().spec_is_planar() {
                    assert forall|i: int|
                        0 <= i < self.spec_data().len()
                        implies #[trigger] self.spec_data()[i].len() == self.spec_samples() as int
                            * self.spec_format().spec_bytes() as int by {
                        assert(self.spec_data()[i] == self.data@[i]@);
                    }
                } else {
                    assert(self.spec_data()[0] == self.data@[0]@);
                }
            }
        }
    }
}

/// An audio frame: a frame whose buffer is interpreted through its
/// sample format and channel layout.
pub struct Audio {
    frame: Frame,
}

impl Audio {
    pub closed spec fn spec_frame(&self) -> Frame {
        self.frame
    }

    pub open spec fn wf(&self) -> bool {
        self.spec_frame().wf()
    }

    pub open spec fn spec_format(&self) -> SampleFormat {
        self.spec_frame().spec_format()
    }

    pub open spec fn spec_samples(&self) -> i32 {
        self.spec_frame().spec_samples()
    }

    pub open spec fn spec_channels(&self) -> i32 {
        self.spec_frame().spec_channels()
    }

    pub open spec fn spec_planes(&self) -> int {
        self.spec_frame().spec_planes()
    }

    /// An empty audio frame over a fresh foreign allocation.
    pub fn empty(host: &mut Host) -> (a: Audio)
        requires
            old(host).wf(),
            old(host).can_alloc(1),
        ensures
            final(host).wf(),
            a.wf(),
            !old(host).allocated(a.spec_frame().spec_addr()),
            final(host).is_live(a.spec_frame().spec_addr()),
            !final(host).guarded(a.spec_frame().spec_addr()),
            final(host).spec_next() == old(host).spec_next() + 1,
            final(host).freed_log() == old(host).freed_log(),
            final(host).slot_seq() == old(host).slot_seq(),
            a.spec_format() == SampleFormat::NONE,
            a.spec_samples() == 0,
            a.spec_channels() == 0,
            a.spec_frame().spec_data().len() == 0,
    {
        Audio { frame: Frame::empty(host) }
    }

    /// An audio frame with an allocated, zero-filled buffer for
    /// `samples` samples of `format` across `layout`'s channels.
    pub fn new(host: &mut Host, format: SampleFormat, samples: i32, layout: ChannelLayout) -> (a:
        Audio)
        requires
            old(host).wf(),
            old(host).can_alloc(1),
            format != SampleFormat::NONE,
            samples >= 0,
            layout.spec_channels() >= 1,
            samples as int * layout.spec_channels() as int * format.spec_bytes() as int
                <= usize::MAX as int,
        ensures
            final(host).wf(),
            a.wf(),
            final(host).is_live(a.spec_frame().spec_addr()),
            final(host).spec_next() == old(host).spec_next() + 1,
            final(host).freed_log() == old(host).freed_log(),
            final(host).slot_seq() == old(host).slot_seq(),
            a.spec_format() == format,
            a.spec_samples() == samples,
            a.spec_channels() == layout.spec_channels(),
            a.spec_planes() == if format.spec_is_planar() {
                layout.spec_channels() as int
            } else {
                1int
            },
    {
        let mut a = Audio::empty(host);
        a.allocate(format, samples, layout);
        a
    }

    /// Set the frame's parameters and attach a zero-filled buffer of
    /// the shape they dictate, dropping any previous buffer.
    pub fn allocate(&mut self, format: SampleFormat, samples: i32, layout: ChannelLayout)
        requires
            old(self).wf(),
            format != SampleFormat::NONE,
            samples >= 0,
            layout.spec_channels() >= 1,
            samples as int * layout.spec_channels() as int * format.spec_bytes() as int
                <= usize::MAX as int,
        ensures
            final(self).wf(),
            final(self).spec_format() == format,
            final(self).spec_samples() == samples,
            final(self).spec_channels() == layout.spec_channels(),
            final(self).spec_frame().spec_addr() == old(self).spec_frame().spec_addr(),
            final(self).spec_planes() == if format.spec_is_planar() {
                layout.spec_channels() as int
            } else {
                1int
            },
    {
        self.frame.format = format;
        self.frame.samples = samples;
        self.frame.layout = layout;
        let bytes = format.bytes();
        let s = samples as usize;
        let c = layout.nb_channels() as usize;
        let mut data: Vec<Vec<u8>> = Vec::new();
        if format.is_planar() {
            proof {
                assert(s * bytes <= s * c * bytes) by (nonlinear_arith)
                    requires
                        c >= 1,
                        s >= 0,
                        bytes >= 0,
                ;
            }
            let plane_len = s * bytes;
            let mut i: usize = 0;
            while i < c
                invariant
                    i <= c,
                    data@.len() == i,
                    forall|j: int| 0 <= j < i ==> #[trigger] data@[j]@.len() == plane_len,
                decreases c - i,
            {
                data.push(zero_bytes(plane_len));
                i = i + 1;
            }
        } else {
            proof {
                assert(bytes >= 1);
                assert(s * c <= s * c * bytes) by (nonlinear_arith)
                    requires
                        bytes >= 1,
                        s >= 0,
                        c >= 0,
                ;
            }
            let plane_len = s * c * bytes;
            data.push(zero_bytes(plane_len));
        }
        self.frame.data = data;
        proof {
            if self.frame.spec_format().spec_is_planar() {
                assert forall|i: int|
                    0 <= i < self.frame.spec_data().len()
                    implies #[trigger] self.frame.spec_data()[i].len() == self.frame.spec_samples()
                        as int * self.frame.spec_format().spec_bytes() as int by {
                    assert(self.frame.spec_data()[i] == self.frame.data@[i]@);
                }
            } else {
                assert(self.frame.spec_data()[0] == self.frame.data@[0]@);
            }
        }
    }

    /// The sample format, `NONE` for an unconfigured frame.
    pub fn format(&self) -> (f: SampleFormat)
        ensures
            f == self.spec_format(),
    {
        self.frame.format
    }

    pub fn set_format(&mut self, format: SampleFormat)
        requires
            old(self).wf(),
            old(self).spec_frame().spec_data().len() == 0,
        ensures
            final(self).wf(),
            final(self).spec_format() == format,
            final(self).spec_samples() == old(self).spec_samples(),
            final(self).spec_channels() == old(self).spec_channels(),
    {
        self.frame.format = format;
    }

    pub fn samples(&self) -> (s: i32)
        ensures
            s == self.spec_samples(),
    {
        self.frame.samples
    }

    pub fn set_samples(&mut self, samples: i32)
        requires
            old(self).wf(),
            old(self).spec_frame().spec_data().len() == 0,
            samples >= 0,
        ensures
            final(self).wf(),
            final(self).spec_samples() == samples,
            final(self).spec_format() == old(self).spec_format(),
            final(self).spec_channels() == old(self).spec_channels(),
    {
        self.frame.samples = samples;
    }

    pub fn channel_layout(&self) -> (l: ChannelLayout)
        ensures
            l == self.spec_frame().spec_layout(),
    {
        self.frame.layout
    }

    pub fn set_channel_layout(&mut self, layout: ChannelLayout)
        requires
            old(self).wf(),
            old(self).spec_frame().spec_data().len() == 0,
            layout.spec_channels() >= 0,
        ensures
            final(self).wf(),
            final(self).spec_channels() == layout.spec_channels(),
            final(self).spec_format() == old(self).spec_format(),
            final(self).spec_samples() == old(self).spec_samples(),
    {
        self.frame.layout = layout;
    }

    /// The number of channels.
    pub fn channels(&self) -> (c: i32)
        ensures
            c == self.spec_channels(),
    {
        self.frame.layout.nb_channels()
    }

    pub fn sample_rate(&self) -> (r: i32)
        ensures
            r == self.spec_frame().spec_sample_rate(),
    {
        self.frame.sample_rate
    }

    pub fn set_sample_rate(&mut self, sample_rate: i32)
        requires
            old(self).wf(),
        ensures
            final(self).wf(),
            final(self).spec_frame().spec_sample_rate() == sample_rate,
            final(self).spec_format() == old(self).spec_format(),
            final(self).spec_samples() == old(self).spec_samples(),
            final(self).spec_channels() == old(self).spec_channels(),
            final(self).spec_frame().spec_data() == old(self).spec_frame().spec_data(),
    {
        self.frame.sample_rate = sample_rate;
    }

    /// Whether the sample format is planar.
    pub fn is_planar(&self) -> (r: bool)
        ensures
            r == self.spec_format().spec_is_planar(),
    {
        self.frame.format.is_planar()
    }

    /// Whether the sample format is packed.
    pub fn is_packed(&self) -> (r: bool)
        ensures
            r == !self.spec_format().spec_is_planar(),
    {
        self.frame.format.is_packed()
    }

    /// How many planes the buffer exposes: none without data, one for
    /// a packed layout, one per channel for a planar layout.
    pub fn planes(&self) -> (n: usize)
        requires
            self.wf(),
        ensures
            n == self.spec_planes(),
    {
        if self.frame.data.len() == 0 {
            0
        } else if self.is_packed() {
            1
        } else {
            self.channels() as usize
        }
    }

    /// The typed sample accessor.  The plane index must lie under the
    /// plane count (else `InvalidPlaneIndex`), and the requested type
    /// must be a valid interpretation of the buffer's format and
    /// channel count (else `UnsupportedSampleType`).  On success the
    /// view holds one element per sample (planar) or one per sample
    /// and channel (packed).
    pub fn data(&self, ty: SampleType, index: usize) -> (r: Result<SampleView<'_>, Error>)
        requires
            self.wf(),
        ensures
            index >= self.spec_planes() ==> r == Err::<SampleView<'_>, Error>(
                Error::InvalidPlaneIndex,
            ),
            index < self.spec_planes() && !spec_sample_type_valid(
                ty,
                self.spec_format(),
                self.spec_channels(),
            ) ==> r == Err::<SampleView<'_>, Error>(Error::UnsupportedSampleType),
            index < self.spec_planes() && spec_sample_type_valid(
                ty,
                self.spec_format(),
                self.spec_channels(),
            ) ==> match r {
                Ok(v) => {
                    &&& v.spec_count() as int == if self.spec_format().spec_is_planar() {
                        self.spec_samples() as int
                    } else {
                        self.spec_samples() as int * self.spec_channels() as int
                    }
                    &&& v.spec_bytes() == if self.spec_format().spec_is_planar() {
                        self.spec_frame().spec_data()[index as int]
                    } else {
                        self.spec_frame().spec_data()[0]
                    }
                },
                Err(_) => false,
            },
    {
        if index >= self.planes() {
            return Err(Error::InvalidPlaneIndex);
        }
        if !sample_type_valid(ty, self.format(), self.channels()) {
            return Err(Error::UnsupportedSampleType);
        }
        if self.is_planar() {
            Ok(SampleView { bytes: &self.frame.data[index], count: self.frame.samples as usize })
        } else {
            let s = self.frame.samples as usize;
            let c = self.frame.layout.nb_channels() as usize;
            let plane = &self.frame.data[0];
            let plane_len = plane.len();
            proof {
                let bytes = self.spec_format().spec_bytes() as int;
                assert(bytes >= 1);
                assert(self.frame.spec_data()[0] == self.frame.data@[0]@);
                assert(s * c * bytes == plane_len as int);
                assert(s * c <= s * c * bytes) by (nonlinear_arith)
                    requires
                        bytes >= 1,
                        s >= 0,
                        c >= 0,
                ;
            }
            Ok(SampleView { bytes: plane, count: s * c })
        }
    }

    /// The typed sample accessor, dispatched on the element type; see
    /// [`Audio::data`].
    pub fn data_as<T: Sample>(&self, index: usize) -> (r: Result<SampleView<'_>, Error>)
        requires
            self.wf(),
        ensures
            index >= self.spec_planes() ==> r == Err::<SampleView<'_>, Error>(
                Error::InvalidPlaneIndex,
            ),
            index < self.spec_planes() && !spec_sample_type_valid(
                T::spec_sample_type(),
                self.spec_format(),
                self.spec_channels(),
            ) ==> r == Err::<SampleView<'_>, Error>(Error::UnsupportedSampleType),
            index < self.spec_planes() && spec_sample_type_valid(
                T::spec_sample_type(),
                self.spec_format(),
                self.spec_channels(),
            ) ==> match r {
                Ok(v) => {
                    &&& v.spec_count() as int == if self.spec_format().spec_is_planar() {
                        self.spec_samples() as int
                    } else {
                        self.spec_samples() as int * self.spec_channels() as int
                    }
                    &&& v.spec_bytes() == if self.spec_format().spec_is_planar() {
                        self.spec_frame().spec_data()[index as int]
                    } else {
                        self.spec_frame().spec_data()[0]
                    }
                },
                Err(_) => false,
            },
    {
        if index >= self.planes() {
            return Err(Error::InvalidPlaneIndex);
        }
        if !T::is_valid(self.format(), self.channels()) {
            return Err(Error::UnsupportedSampleType);
        }
        if self.is_planar() {
            Ok(SampleView { bytes: &self.frame.data[index], count: self.frame.samples as usize })
        } else {
            let s = self.frame.samples as usize;
            let c = self.frame.layout.nb_channels() as usize;
            let plane = &self.frame.data[0];
            let plane_len = plane.len();
            proof {
                let bytes = self.spec_format().spec_bytes() as int;
                assert(bytes >= 1);
                assert(self.frame.spec_data()[0] == self.frame.data@[0]@);
                assert(s * c * bytes == plane_len as int);
                assert(s * c <= s * c * bytes) by (nonlinear_arith)
                    requires
                        bytes >= 1,
                        s >= 0,
                        c >= 0,
                ;
            }
            Ok(SampleView { bytes: plane, count: s * c })
        }
    }

    /// The wrapped frame.
    pub fn frame(&self) -> (f: &Frame)
        ensures
            *f == self.spec_frame(),
    {
        &self.frame
    }

    /// Unwrap into the plain frame handle.
    pub fn into_frame(self) -> (f: Frame)
        ensures
            f == self.spec_frame(),
    {
        self.frame
    }

    /// Wrap a plain frame for audio interpretation.
    pub fn from_frame(frame: Frame) -> (a: Audio)
        ensures
            a.spec_frame() == frame,
    {
        Audio { frame }
    }

    /// An independent copy over a fresh foreign allocation, carrying
    /// the same parameters and buffer contents, as the foreign frame
    /// copy calls produce.
    pub fn duplicate(&self, host: &mut Host) -> (a: Audio)
        requires
            self.wf(),
            old(host).wf(),
            old(host).can_alloc(1),
        ensures
            final(host).wf(),
            a.wf(),
            !old(host).allocated(a.spec_frame().spec_addr()),
            final(host).is_live(a.spec_frame().spec_addr()),
            !final(host).guarded(a.spec_frame().spec_addr()),
            final(host).spec_next() == old(host).spec_next() + 1,
            final(host).freed_log() == old(host).freed_log(),
            final(host).slot_seq() == old(host).slot_seq(),
            a.spec_format() == self.spec_format(),
            a.spec_samples() == self.spec_samples(),
            a.spec_channels() == self.spec_channels(),
            a.spec_frame().spec_sample_rate() == self.spec_frame().spec_sample_rate(),
            a.spec_frame().spec_pts() == self.spec_frame().spec_pts(),
            a.spec_frame().spec_duration() == self.spec_frame().spec_duration(),
            a.spec_frame().spec_best_effort_timestamp() == self.spec_frame()
                .spec_best_effort_timestamp(),
            a.spec_frame().spec_metadata() == self.spec_frame().spec_metadata(),
            a.spec_frame().spec_data() == self.spec_frame().spec_data(),
    {
        let addr = host.allocate();
        let frame = Frame {
            addr,
            format: self.frame.format,
            samples: self.frame.samples,
            layout: self.frame.layout,
            sample_rate: self.frame.sample_rate,
            pts: self.frame.pts,
            duration: self.frame.duration,
            best_effort_timestamp: self.frame.best_effort_timestamp,
            metadata: self.frame.metadata.duplicate(),
            data: copy_planes(&self.frame.data),
        };
        proof {
            assert(frame.spec_data() =~= self.frame.spec_data());
        }
        Audio { frame }
    }

    /// Release the foreign frame; see [`Frame::close`].
    pub fn close(self, host: &mut Host)
        requires
            old(host).wf(),
            old(host).is_live(self.spec_frame().spec_addr()),
            !old(host).guarded(self.spec_frame().spec_addr()),
        ensures
            final(host).wf(),
            final(host).free_count(self.spec_frame().spec_addr()) == 1,
            !final(host).is_live(self.spec_frame().spec_addr()),
            final(host).freed_log() == old(host).freed_log().push(self.spec_frame().spec_addr()),
            forall|b: u64|
                b != self.spec_frame().spec_addr() ==> final(host).is_live(b) == old(host).is_live(b),
            final(host).spec_next() == old(host).spec_next(),
            final(host).slot_seq() == old(host).slot_seq(),
    {
        self.frame.close(host);
    }
}

/// An independent copy of a plane table.
fn copy_planes(v: &Vec<Vec<u8>>) -> (r: Vec<Vec<u8>>)
    ensures
        r@.len() == v@.len(),
        forall|i: int| 0 <= i < v@.len() ==> #[trigger] r@[i]@ == v@[i]@,
{
    let mut r: Vec<Vec<u8>> = Vec::new();
    let n = v.len();
    let mut i: usize = 0;
    while i < n
        invariant
            n == v@.len(),
            i <= n,
            r@.len() == i,
            forall|j: int| 0 <= j < i ==> #[trigger] r@[j]@ == v@[j]@,
        decreases n - i,
    {
        r.push(copy_bytes(&v[i]));
        i = i + 1;
    }
    r
}

/// An independent copy of a byte buffer.
fn copy_bytes(v: &Vec<u8>) -> (r: Vec<u8>)
    ensures
        r@ == v@,
{
    let mut r: Vec<u8> = Vec::new();
    let n = v.len();
    let mut i: usize = 0;
    while i < n
        invariant
            n == v@.len(),
            i <= n,
            r@ =~= v@.take(i as int),
        decreases n - i,
    {
        r.push(v[i]);
        proof {
            assert(r@ =~= v@.take(i as int + 1));
        }
        i = i + 1;
    }
    proof {
        assert(v@.take(n as int) =~= v@);
    }
    r
}

/// A zero-filled byte buffer of the requested length.
fn zero_bytes(n: usize) -> (v: Vec<u8>)
    ensures
        v@.len() == n,
        forall|i: int| 0 <= i < n ==> v@[i] == 0u8,
{
    let mut v: Vec<u8> = Vec::new();
    let mut i: usize = 0;
    while i < n
        invariant
            i <= n,
            v@.len() == i,
            forall|j: int| 0 <= j < i ==> v@[j] == 0u8,
        decreases n - i,
    {
        v.push(0u8);
        i = i + 1;
    }
    v
}

} // verus!
