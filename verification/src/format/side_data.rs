//! Packet side data: extra per-stream payloads the container carries
//! beside the packet data.

use vstd::prelude::*;

verus! {

/// One piece of packet side data: its foreign kind code and payload.
pub struct PacketSideData {
    kind: i32,
    data: Vec<u8>,
}

impl PacketSideData {
    pub closed spec fn spec_kind(&self) -> i32 {
        self.kind
    }

    pub closed spec fn spec_data(&self) -> Seq<u8> {
        self.data@
    }

    /// Bundle a payload with its foreign kind code.
    pub fn new(kind: i32, data: Vec<u8>) -> (s: PacketSideData)
        ensures
            s.spec_kind() == kind,
            s.spec_data() == data@,
    {
        PacketSideData { kind, data }
    }

    /// The foreign kind code.
    pub fn kind(&self) -> (k: i32)
        ensures
            k == self.spec_kind(),
    {
        self.kind
    }

    /// The payload bytes.
    pub fn data(&self) -> (d: &Vec<u8>)
        ensures
            d@ == self.spec_data(),
    {
        &self.data
    }

    /// An independent copy.
    pub fn duplicate(&self) -> (s: PacketSideData)
        ensures
            s.spec_kind() == self.spec_kind(),
            s.spec_data() == self.spec_data(),
    {
        let mut data: Vec<u8> = Vec::new();
        let n = self.data.len();
        let mut i: usize = 0;
        while i < n
            invariant
                n == self.data@.len(),
                i <= n,
                data@ =~= self.data@.take(i as int),
            decreases n - i,
        {
            data.push(self.data[i]);
            proof {
                assert(data@ =~= self.data@.take(i as int + 1));
            }
            i = i + 1;
        }
        proof {
            assert(self.data@.take(n as int) =~= self.data@);
        }
        PacketSideData { kind: self.kind, data }
    }
}

/// Element-wise equality of two side-data sequences.
pub open spec fn side_data_eq(a: Seq<PacketSideData>, b: Seq<PacketSideData>) -> bool {
    &&& a.len() == b.len()
    &&& forall|i: int|
        0 <= i < a.len() ==> #[trigger] a[i].spec_kind() == b[i].spec_kind() && a[i].spec_data()
            == b[i].spec_data()
}

} // verus!
