//! An audio codec and the iterator adapters over its
//! sentinel-terminated capability tables.
//!
//! Each adapter is a forward-only cursor over a foreign array whose end
//! is marked by a sentinel value (`0` for sample rates, the `NONE`
//! format code for sample formats, a zero-channel layout for channel
//! layouts).  `next` never reads past the first sentinel; iterating
//! again means deriving a fresh adapter from the codec, which borrows
//! the codec and so cannot outlive it.

use vstd::prelude::*;

use crate::codec::codec::Codec;
use crate::util::channel_layout::ChannelLayout;
use crate::util::samplefmt::SampleFormat;

verus! {

/// An audio codec.
pub struct Audio {
    codec: Codec,
}

impl Audio {
    pub closed spec fn spec_codec(&self) -> Codec {
        self.codec
    }

    /// Wrap a codec for audio-specific queries.
    pub fn new(codec: Codec) -> (a: Audio)
        ensures
            a.spec_codec() == codec,
    {
        Audio { codec }
    }

    /// The wrapped codec.
    pub fn codec(&self) -> (c: &Codec)
        ensures
            *c == self.spec_codec(),
    {
        &self.codec
    }

    /// A cursor over the supported sample rates, when the codec
    /// publishes the table.
    pub fn sample_rates(&self) -> (r: Option<RateIter<'_>>)
        ensures
            match r {
                Some(it) => {
                    &&& self.spec_codec().spec_sample_rates() == Some(it@)
                    &&& it.spec_pos() == 0
                },
                None => self.spec_codec().spec_sample_rates() is None,
            },
    {
        match self.codec.sample_rate_table() {
            Some(v) => Some(RateIter::new(v)),
            None => None,
        }
    }

    /// A cursor over the supported sample formats, when the codec
    /// publishes the table.
    pub fn formats(&self) -> (r: Option<FormatIter<'_>>)
        ensures
            match r {
                Some(it) => {
                    &&& self.spec_codec().spec_sample_fmts() == Some(it@)
                    &&& it.spec_pos() == 0
                },
                None => self.spec_codec().spec_sample_fmts() is None,
            },
    {
        match self.codec.sample_fmt_table() {
            Some(v) => Some(FormatIter::new(v)),
            None => None,
        }
    }

    /// A cursor over the supported channel layouts, when the codec
    /// publishes the table.
    pub fn channel_layouts(&self) -> (r: Option<ChannelLayoutIter<'_>>)
        ensures
            match r {
                Some(it) => {
                    &&& self.spec_codec().spec_ch_layouts() == Some(it@)
                    &&& it.spec_pos() == 0
                },
                None => self.spec_codec().spec_ch_layouts() is None,
            },
    {
        match self.codec.ch_layout_table() {
            Some(v) => Some(ChannelLayoutIter::new(v)),
            None => None,
        }
    }
}

/// A cursor over a zero-terminated array of sample rates.
pub struct RateIter<'a> {
    arr: &'a Vec<i32>,
    pos: usize,
}

impl<'a> RateIter<'a> {
    /// The array the cursor walks, sentinel included.
    pub closed spec fn view(&self) -> Seq<i32> {
        self.arr@
    }

    pub closed spec fn spec_pos(&self) -> int {
        self.pos as int
    }

    /// A cursor at the head of `arr`.
    pub fn new(arr: &'a Vec<i32>) -> (it: RateIter<'a>)
        ensures
            it@ == arr@,
            it.spec_pos() == 0,
    {
        RateIter { arr, pos: 0 }
    }

    /// The rate under the cursor, unless the cursor has reached the
    /// `0` sentinel or the end of the array; the sentinel itself is
    /// never yielded and never overstepped.
    pub fn next(&mut self) -> (r: Option<i32>)
        ensures
            final(self)@ == old(self)@,
            ({
                let p = old(self).spec_pos();
                if p < old(self)@.len() && old(self)@[p] != 0 {
                    r == Some(old(self)@[p]) && final(self).spec_pos() == p + 1
                } else {
                    r is None && final(self).spec_pos() == p
                }
            }),
    {
        if self.pos < self.arr.len() {
            let rate = self.arr[self.pos];
            if rate == 0 {
                None
            } else {
                self.pos = self.pos + 1;
                Some(rate)
            }
        } else {
            None
        }
    }
}

/// A cursor over an array of sample-format codes terminated by the
/// `NONE` code.
pub struct FormatIter<'a> {
    arr: &'a Vec<i32>,
    pos: usize,
}

impl<'a> FormatIter<'a> {
    /// The code array the cursor walks, sentinel included.
    pub closed spec fn view(&self) -> Seq<i32> {
        self.arr@
    }

    pub closed spec fn spec_pos(&self) -> int {
        self.pos as int
    }

    /// A cursor at the head of `arr`.
    pub fn new(arr: &'a Vec<i32>) -> (it: FormatIter<'a>)
        ensures
            it@ == arr@,
            it.spec_pos() == 0,
    {
        FormatIter { arr, pos: 0 }
    }

    /// The decoded format under the cursor, unless the cursor has
    /// reached the `NONE` sentinel or the end of the array.
    pub fn next(&mut self) -> (r: Option<SampleFormat>)
        ensures
            final(self)@ == old(self)@,
            ({
                let p = old(self).spec_pos();
                if p < old(self)@.len() && old(self)@[p] != SampleFormat::NONE.spec_code() {
                    r == Some(SampleFormat::spec_from_code(old(self)@[p]))
                        && final(self).spec_pos() == p + 1
                } else {
                    r is None && final(self).spec_pos() == p
                }
            }),
    {
        if self.pos < self.arr.len() {
            let code = self.arr[self.pos];
            if code == -1 {
                None
            } else {
                self.pos = self.pos + 1;
                Some(SampleFormat::from_code(code))
            }
        } else {
            None
        }
    }
}

/// A cursor over an array of channel layouts terminated by a
/// zero-channel layout.
pub struct ChannelLayoutIter<'a> {
    arr: &'a Vec<ChannelLayout>,
    pos: usize,
}

impl<'a> ChannelLayoutIter<'a> {
    /// The layout array the cursor walks, sentinel included.
    pub closed spec fn view(&self) -> Seq<ChannelLayout> {
        self.arr@
    }

    pub closed spec fn spec_pos(&self) -> int {
        self.pos as int
    }

    /// A cursor at the head of `arr`.
    pub fn new(arr: &'a Vec<ChannelLayout>) -> (it: ChannelLayoutIter<'a>)
        ensures
            it@ == arr@,
            it.spec_pos() == 0,
    {
        ChannelLayoutIter { arr, pos: 0 }
    }

    /// The layout under the cursor, unless the cursor has reached the
    /// zero-channel sentinel or the end of the array.
    pub fn next(&mut self) -> (r: Option<ChannelLayout>)
        ensures
            final(self)@ == old(self)@,
            ({
                let p = old(self).spec_pos();
                if p < old(self)@.len() && old(self)@[p].spec_channels() != 0 {
                    r == Some(old(self)@[p]) && final(self).spec_pos() == p + 1
                } else {
                    r is None && final(self).spec_pos() == p
                }
            }),
    {
        if self.pos < self.arr.len() {
            let layout = self.arr[self.pos];
            if layout.nb_channels() == 0 {
                None
            } else {
                self.pos = self.pos + 1;
                Some(layout)
            }
        } else {
            None
        }
    }
}

} // verus!
