//! Packets: owning handles for foreign packet objects.

use vstd::prelude::*;

use crate::error::Error;
use crate::format::input::InputContext;
use crate::host::Host;

verus! {

/// An owning handle for a foreign packet, with the fields the layer
/// reads: the payload size and the index of the stream the packet
/// belongs to.
pub struct Packet {
    addr: u64,
    size: i32,
    stream_index: i32,
}

impl Packet {
    /// The foreign address this handle owns.
    pub closed spec fn spec_addr(&self) -> u64 {
        self.addr
    }

    pub closed spec fn spec_size(&self) -> i32 {
        self.size
    }

    pub closed spec fn spec_stream_index(&self) -> i32 {
        self.stream_index
    }

    pub open spec fn wf(&self) -> bool {
        self.spec_size() >= 0 && self.spec_stream_index() >= 0
    }

    /// A fresh, empty packet over a new foreign allocation.
    pub fn empty(host: &mut Host) -> (p: Packet)
        requires
            old(host).wf(),
            old(host).can_alloc(1),
        ensures
            final(host).wf(),
            p.wf(),
            !old(host).allocated(p.spec_addr()),
            final(host).is_live(p.spec_addr()),
            !final(host).guarded(p.spec_addr()),
            final(host).spec_next() == old(host).spec_next() + 1,
            final(host).freed_log() == old(host).freed_log(),
            final(host).slot_seq() == old(host).slot_seq(),
            p.spec_size() == 0,
            p.spec_stream_index() == 0,
    {
        let addr = host.allocate();
        Packet { addr, size: 0, stream_index: 0 }
    }

    /// A fresh packet with a payload of `size` bytes.
    pub fn new(host: &mut Host, size: i32) -> (p: Packet)
        requires
            old(host).wf(),
            old(host).can_alloc(1),
            size >= 0,
        ensures
            final(host).wf(),
            p.wf(),
            final(host).is_live(p.spec_addr()),
            !final(host).guarded(p.spec_addr()),
            final(host).spec_next() == old(host).spec_next() + 1,
            final(host).freed_log() == old(host).freed_log(),
            final(host).slot_seq() == old(host).slot_seq(),
            p.spec_size() == size,
            p.spec_stream_index() == 0,
    {
        let mut p = Packet::empty(host);
        p.size = size;
        p
    }

    /// The payload size in bytes.
    pub fn size(&self) -> (s: i32)
        ensures
            s == self.spec_size(),
    {
        self.size
    }

    /// The index of the stream this packet belongs to.
    pub fn stream_index(&self) -> (i: i32)
        ensures
            i == self.spec_stream_index(),
    {
        self.stream_index
    }

    /// Read the next packet of the input into this handle.  Succeeds
    /// exactly while packets remain; an exhausted input reports the
    /// distinguished `EndOfStream`, never a generic failure.
    pub fn read(&mut self, format: &mut InputContext) -> (r: Result<(), Error>)
        requires
            old(self).wf(),
            old(format).wf(),
        ensures
            final(self).wf(),
            final(format).wf(),
            final(self).spec_addr() == old(self).spec_addr(),
            final(format).spec_context() == old(format).spec_context(),
            final(format).spec_format() == old(format).spec_format(),
            final(format).spec_packets() == old(format).spec_packets(),
            ({
                let cur = old(format).spec_cursor();
                if cur < old(format).spec_packets().len() {
                    &&& r is Ok
                    &&& final(format).spec_cursor() == cur + 1
                    &&& final(self).spec_size() == old(format).spec_packets()[cur].size
                    &&& final(self).spec_stream_index() == old(format).spec_packets()[cur].stream_index
                } else {
                    &&& r == Err::<(), Error>(Error::EndOfStream)
                    &&& final(format).spec_cursor() == cur
                    &&& *final(self) == *old(self)
                }
            }),
    {
        match format.next_packet_fields() {
            Some((stream_index, size)) => {
                self.size = size;
                self.stream_index = stream_index;
                Ok(())
            },
            None => Err(Error::EndOfStream),
        }
    }

    /// Release the foreign packet.  Consuming `self` makes a second
    /// free structurally impossible.
    pub fn close(self, host: &mut Host)
        requires
            old(host).wf(),
            old(host).is_live(self.spec_addr()),
            !old(host).guarded(self.spec_addr()),
        ensures
            final(host).wf(),
            final(host).freed_log() == old(host).freed_log().push(self.spec_addr()),
            final(host).free_count(self.spec_addr()) == 1,
            !final(host).is_live(self.spec_addr()),
            forall|b: u64|
                b != self.spec_addr() ==> final(host).is_live(b) == old(host).is_live(b),
            final(host).spec_next() == old(host).spec_next(),
            final(host).slot_seq() == old(host).slot_seq(),
    {
        host.free(self.addr);
    }
}

} // verus!
