//! Model of the foreign library's allocation state.
//!
//! Every foreign resource (format context, codec context, packet, frame,
//! ...) is identified by an address.  The [`Host`] value stands for the
//! foreign runtime: it hands out fresh addresses, records every free call
//! in order, and keeps the reference counts behind shared destructors.
//! All handle types of this crate thread a `&mut Host` through the
//! operations that would cross the C boundary, so the single-free
//! discipline is a proved property of the model instead of a convention.

use vstd::prelude::*;

verus! {

/// Number of times `x` occurs in `s`.
pub open spec fn occurrences(s: Seq<u64>, x: u64) -> nat
    decreases s.len(),
{
    if s.len() == 0 {
        0
    } else {
        occurrences(s.drop_last(), x) + if s.last() == x {
            1nat
        } else {
            0nat
        }
    }
}

/// Appending one element adds one occurrence of that element and none of
/// any other.
pub proof fn lemma_occurrences_push(s: Seq<u64>, y: u64, x: u64)
    ensures
        occurrences(s.push(y), x) == occurrences(s, x) + if x == y {
            1nat
        } else {
            0nat
        },
{
    assert(s.push(y).drop_last() =~= s);
}

/// A sequence contains an element exactly when it occurs at least once.
pub proof fn lemma_occurrences_contains(s: Seq<u64>, x: u64)
    ensures
        s.contains(x) <==> occurrences(s, x) > 0,
    decreases s.len(),
{
    if s.len() > 0 {
        lemma_occurrences_contains(s.drop_last(), x);
        if s.contains(x) && s.last() != x {
            let k = choose|k: int| 0 <= k < s.len() && s[k] == x;
            assert(s.drop_last()[k] == x);
        }
        if s.drop_last().contains(x) {
            let k = choose|k: int| 0 <= k < s.len() - 1 && s.drop_last()[k] == x;
            assert(s[k] == x);
        }
    }
}

/// In a duplicate-free sequence every element occurs at most once.
pub proof fn lemma_no_duplicates_occurrences(s: Seq<u64>, x: u64)
    requires
        s.no_duplicates(),
    ensures
        occurrences(s, x) <= 1,
    decreases s.len(),
{
    if s.len() > 0 {
        assert(s.drop_last().no_duplicates());
        lemma_no_duplicates_occurrences(s.drop_last(), x);
        if s.last() == x {
            lemma_occurrences_contains(s.drop_last(), x);
            if s.drop_last().contains(x) {
                let k = choose|k: int| 0 <= k < s.len() - 1 && s.drop_last()[k] == x;
                assert(s[k] == s[s.len() - 1]);
            }
        }
    }
}

/// One reference-counted deferred-destruction record: the guarded
/// address, an optional I/O sub-object to close first, and the count of
/// outstanding references.
pub struct Slot {
    pub addr: u64,
    pub io: Option<u64>,
    pub count: u64,
}

/// The foreign runtime's allocation state: a fresh-address counter, the
/// ordered log of free calls, and the shared-destructor records.
///
/// Addresses are never reused, so `a < next` says `a` was allocated and
/// membership in the free log says it was released.
pub struct Host {
    next: u64,
    freed: Vec<u64>,
    slots: Vec<Slot>,
}

impl Host {
    /// The fresh-address counter.
    pub closed spec fn spec_next(&self) -> u64 {
        self.next
    }

    /// Every free call made so far, oldest first.
    pub closed spec fn freed_log(&self) -> Seq<u64> {
        self.freed@
    }

    /// The shared-destructor records.
    pub closed spec fn slot_seq(&self) -> Seq<Slot> {
        self.slots@
    }

    /// `a` has been handed out by the allocator.
    pub open spec fn allocated(&self, a: u64) -> bool {
        a < self.spec_next()
    }

    /// A free call for `a` has happened.
    pub open spec fn freed(&self, a: u64) -> bool {
        self.freed_log().contains(a)
    }

    /// How many free calls have targeted `a`.
    pub open spec fn free_count(&self, a: u64) -> nat {
        occurrences(self.freed_log(), a)
    }

    /// `a` is allocated and not yet freed.
    pub open spec fn is_live(&self, a: u64) -> bool {
        self.allocated(a) && !self.freed(a)
    }

    pub open spec fn num_slots(&self) -> nat {
        self.slot_seq().len()
    }

    pub open spec fn slot_addr(&self, i: int) -> u64 {
        self.slot_seq()[i].addr
    }

    pub open spec fn slot_io(&self, i: int) -> Option<u64> {
        self.slot_seq()[i].io
    }

    pub open spec fn slot_count(&self, i: int) -> u64 {
        self.slot_seq()[i].count
    }

    /// Slot `i` still has outstanding references.
    pub open spec fn slot_active(&self, i: int) -> bool {
        0 <= i < self.num_slots() && self.slot_count(i) > 0
    }

    /// Slot `i` is responsible for eventually freeing `a`.
    pub open spec fn slot_covers(&self, i: int, a: u64) -> bool {
        self.slot_addr(i) == a || self.slot_io(i) == Some(a)
    }

    /// Some active shared destructor will free `a`; nothing else may.
    pub open spec fn guarded(&self, a: u64) -> bool {
        exists|i: int| self.slot_active(i) && self.slot_covers(i, a)
    }

    /// The addresses of active slot `i` are live, and its I/O sub-object
    /// is distinct from its main address.
    pub open spec fn slot_wf(&self, i: int) -> bool {
        &&& self.is_live(self.slot_addr(i))
        &&& match self.slot_io(i) {
            Some(b) => self.is_live(b) && b != self.slot_addr(i),
            None => true,
        }
    }

    /// Active slots `i` and `j` guard disjoint addresses.
    pub open spec fn slots_disjoint(&self, i: int, j: int) -> bool {
        &&& self.slot_addr(i) != self.slot_addr(j)
        &&& self.slot_io(i) != Some(self.slot_addr(j))
        &&& match (self.slot_io(i), self.slot_io(j)) {
            (Some(a), Some(b)) => a != b,
            _ => true,
        }
    }

    /// The allocation discipline: no address is freed twice, freed
    /// addresses were allocated, and active shared destructors guard
    /// live, pairwise-distinct addresses.
    pub closed spec fn wf(&self) -> bool {
        &&& self.freed@.no_duplicates()
        &&& forall|k: int|
            0 <= k < self.freed@.len() ==> #[trigger] self.freed@[k] < self.next
        &&& forall|i: int| #[trigger] self.slot_active(i) ==> self.slot_wf(i)
        &&& forall|i: int, j: int|
            #[trigger] self.slot_active(i) && #[trigger] self.slot_active(j) && i != j
                ==> self.slots_disjoint(i, j)
    }

    /// `k` more allocations fit before the address space is exhausted.
    pub open spec fn can_alloc(&self, k: nat) -> bool {
        self.spec_next() + k <= u64::MAX
    }

    /// A fresh foreign runtime: nothing allocated, nothing freed.
    pub fn new() -> (h: Host)
        ensures
            h.wf(),
            h.spec_next() == 0,
            h.freed_log().len() == 0,
            h.num_slots() == 0,
    {
        Host { next: 0, freed: Vec::new(), slots: Vec::new() }
    }

    /// A free call for `a` has never happened.  Follows from `wf` for
    /// any live address.
    pub proof fn lemma_live_never_freed(&self, a: u64)
        requires
            self.is_live(a),
        ensures
            self.free_count(a) == 0,
    {
        lemma_occurrences_contains(self.freed_log(), a);
    }

    /// No address is ever freed more than once.
    pub proof fn lemma_free_at_most_once(&self, a: u64)
        requires
            self.wf(),
        ensures
            self.free_count(a) <= 1,
    {
        lemma_no_duplicates_occurrences(self.freed_log(), a);
    }

    /// The free log only grows, so once an address has been freed it
    /// stays freed -- and under `wf` its free count stays exactly one.
    pub proof fn lemma_freed_is_permanent(pre: Host, post: Host, a: u64)
        requires
            pre.freed_log().is_prefix_of(post.freed_log()),
            post.wf(),
            pre.freed(a),
        ensures
            post.freed(a),
            post.free_count(a) == 1,
    {
        let k = choose|k: int| 0 <= k < pre.freed_log().len() && pre.freed_log()[k] == a;
        assert(post.freed_log()[k] == a);
        lemma_no_duplicates_occurrences(post.freed_log(), a);
        lemma_occurrences_contains(post.freed_log(), a);
    }

    /// While any reference to an active shared destructor remains, its
    /// resource has not been freed: the free comes only after the last
    /// drop.
    pub proof fn lemma_no_free_while_references_remain(&self, i: int)
        requires
            self.wf(),
            self.slot_active(i),
        ensures
            self.free_count(self.slot_addr(i)) == 0,
            self.is_live(self.slot_addr(i)),
    {
        assert(self.slot_wf(i));
        self.lemma_live_never_freed(self.slot_addr(i));
    }

    /// How many free calls have targeted `a`, as a runtime count.
    pub fn freed_times(&self, a: u64) -> (n: usize)
        requires
            self.freed_log().len() <= usize::MAX,
        ensures
            n == self.free_count(a),
    {
        let mut n: usize = 0;
        let len = self.freed.len();
        let mut i: usize = 0;
        while i < len
            invariant
                len == self.freed@.len(),
                i <= len,
                n == occurrences(self.freed@.take(i as int), a),
                n <= i,
            decreases len - i,
        {
            proof {
                assert(self.freed@.take(i as int + 1).drop_last() =~= self.freed@.take(i as int));
            }
            if self.freed[i] == a {
                n = n + 1;
            }
            i = i + 1;
        }
        proof {
            assert(self.freed@.take(len as int) =~= self.freed@);
        }
        n
    }

    /// Whether `a` is allocated and not yet freed, as a runtime test.
    pub fn live(&self, a: u64) -> (r: bool)
        ensures
            r == self.is_live(a),
    {
        if a >= self.next {
            return false;
        }
        let len = self.freed.len();
        let mut i: usize = 0;
        while i < len
            invariant
                len == self.freed@.len(),
                i <= len,
                a < self.spec_next(),
                forall|j: int| 0 <= j < i ==> self.freed@[j] != a,
            decreases len - i,
        {
            if self.freed[i] == a {
                return false;
            }
            i = i + 1;
        }
        proof {
            if self.freed(a) {
                let k = choose|k: int|
                    0 <= k < self.freed@.len() && self.freed@[k] == a;
                assert(false);
            }
        }
        true
    }

    /// The free log so far, oldest call first.
    pub fn freed_entries(&self) -> (v: &Vec<u64>)
        ensures
            v@ == self.freed_log(),
    {
        &self.freed
    }

    /// Hand out a fresh address for a resource the foreign library has
    /// just allocated.
    pub fn allocate(&mut self) -> (a: u64)
        requires
            old(self).wf(),
            old(self).can_alloc(1),
        ensures
            final(self).wf(),
            a == old(self).spec_next(),
            final(self).spec_next() == a + 1,
            !old(self).allocated(a),
            final(self).is_live(a),
            !final(self).guarded(a),
            final(self).freed_log() == old(self).freed_log(),
            final(self).slot_seq() == old(self).slot_seq(),
    {
        let a = self.next;
        self.next = self.next + 1;
        proof {
            assert forall|i: int| self.slot_active(i) implies self.slot_wf(i) by {
                assert(old(self).slot_active(i));
                assert(old(self).slot_wf(i));
            }
            assert forall|i: int, j: int|
                self.slot_active(i) && self.slot_active(j) && i != j
                implies self.slots_disjoint(i, j) by {
                assert(old(self).slot_active(i));
                assert(old(self).slot_active(j));
            }
            if self.guarded(a) {
                let i = choose|i: int| self.slot_active(i) && self.slot_covers(i, a);
                assert(old(self).slot_active(i));
                assert(old(self).slot_wf(i));
            }
            assert(self.wf());
        }
        a
    }

    /// Record the foreign free call for `a`.  Only legal for a live
    /// address that no active shared destructor still guards.
    pub fn free(&mut self, a: u64)
        requires
            old(self).wf(),
            old(self).is_live(a),
            !old(self).guarded(a),
        ensures
            final(self).wf(),
            final(self).freed_log() == old(self).freed_log().push(a),
            final(self).free_count(a) == 1,
            !final(self).is_live(a),
            forall|b: u64| b != a ==> final(self).is_live(b) == old(self).is_live(b),
            final(self).spec_next() == old(self).spec_next(),
            final(self).slot_seq() == old(self).slot_seq(),
            forall|x: u64| final(self).guarded(x) == old(self).guarded(x),
            old(self).freed_log().is_prefix_of(final(self).freed_log()),
    {
        proof {
            lemma_occurrences_push(old(self).freed_log(), a, a);
            old(self).lemma_live_never_freed(a);
        }
        self.freed.push(a);
        proof {
            assert forall|b: u64| b != a implies self.is_live(b) == old(self).is_live(b) by {
                if old(self).freed(b) {
                    let k = choose|k: int|
                        0 <= k < old(self).freed_log().len() && old(self).freed_log()[k] == b;
                    assert(self.freed_log()[k] == b);
                }
            }
            assert forall|i: int| self.slot_active(i) implies self.slot_wf(i) by {
                assert(old(self).slot_active(i));
                assert(old(self).slot_wf(i));
                assert(!old(self).slot_covers(i, a));
            }
            assert forall|i: int, j: int|
                self.slot_active(i) && self.slot_active(j) && i != j
                implies self.slots_disjoint(i, j) by {
                assert(old(self).slot_active(i));
                assert(old(self).slot_active(j));
            }
            assert forall|x: u64| self.guarded(x) == old(self).guarded(x) by {
                if self.guarded(x) {
                    let i = choose|i: int| self.slot_active(i) && self.slot_covers(i, x);
                    assert(old(self).slot_active(i) && old(self).slot_covers(i, x));
                }
                if old(self).guarded(x) {
                    let i = choose|i: int|
                        old(self).slot_active(i) && old(self).slot_covers(i, x);
                    assert(self.slot_active(i) && self.slot_covers(i, x));
                }
            }
        }
    }

    /// Register a shared destructor for `addr` (and, for output-style
    /// teardown, the I/O sub-object `io` closed first), with one
    /// reference outstanding.
    pub fn register(&mut self, addr: u64, io: Option<u64>) -> (s: usize)
        requires
            old(self).wf(),
            old(self).is_live(addr),
            !old(self).guarded(addr),
            match io {
                Some(b) => old(self).is_live(b) && !old(self).guarded(b) && b != addr,
                None => true,
            },
        ensures
            final(self).wf(),
            s == old(self).num_slots(),
            final(self).slot_seq() == old(self).slot_seq().push((Slot { addr, io, count: 1 })),
            final(self).slot_active(s as int),
            final(self).slot_addr(s as int) == addr,
            final(self).slot_io(s as int) == io,
            final(self).slot_count(s as int) == 1,
            final(self).freed_log() == old(self).freed_log(),
            final(self).spec_next() == old(self).spec_next(),
            forall|b: u64| old(self).is_live(b) == final(self).is_live(b),
            old(self).freed_log().is_prefix_of(final(self).freed_log()),
    {
        let s = self.slots.len();
        self.slots.push(Slot { addr, io, count: 1 });
        proof {
            assert forall|i: int| self.slot_active(i) implies self.slot_wf(i) by {
                if i < s {
                    assert(old(self).slot_active(i));
                    assert(old(self).slot_wf(i));
                }
            }
            assert forall|i: int, j: int|
                self.slot_active(i) && final(self).slot_active(j) && i != j
                implies self.slots_disjoint(i, j) by {
                if i < s && j < s {
                    assert(old(self).slot_active(i));
                    assert(old(self).slot_active(j));
                } else if i == s as int {
                    assert(old(self).slot_active(j));
                    assert(!old(self).slot_covers(j, addr));
                    match io {
                        Some(b) => {
                            assert(!old(self).slot_covers(j, b));
                        },
                        None => {},
                    }
                } else {
                    assert(old(self).slot_active(i));
                    assert(!old(self).slot_covers(i, addr));
                    match io {
                        Some(b) => {
                            assert(!old(self).slot_covers(i, b));
                        },
                        None => {},
                    }
                }
            }
        }
        s
    }

    /// Take one more reference on slot `s`.
    pub fn retain(&mut self, s: usize)
        requires
            old(self).wf(),
            old(self).slot_active(s as int),
            old(self).slot_count(s as int) < u64::MAX,
        ensures
            final(self).wf(),
            final(self).slot_seq() == old(self).slot_seq().update(
                s as int,
                (Slot {
                    addr: old(self).slot_addr(s as int),
                    io: old(self).slot_io(s as int),
                    count: (old(self).slot_count(s as int) + 1) as u64,
                }),
            ),
            final(self).slot_count(s as int) == old(self).slot_count(s as int) + 1,
            final(self).freed_log() == old(self).freed_log(),
            final(self).spec_next() == old(self).spec_next(),
            forall|b: u64| old(self).is_live(b) == final(self).is_live(b),
            old(self).freed_log().is_prefix_of(final(self).freed_log()),
    {
        let addr = self.slots[s].addr;
        let io = if self.slots[s].io.is_some() {
            Some(*self.slots[s].io.as_ref().unwrap())
        } else {
            None
        };
        let count = self.slots[s].count;
        self.slots.set(s, Slot { addr, io, count: count + 1 });
        proof {
            assert forall|i: int| self.slot_active(i) implies self.slot_wf(i) by {
                assert(old(self).slot_active(i));
                assert(old(self).slot_wf(i));
            }
            assert forall|i: int, j: int|
                self.slot_active(i) && self.slot_active(j) && i != j
                implies self.slots_disjoint(i, j) by {
                assert(old(self).slot_active(i));
                assert(old(self).slot_active(j));
            }
        }
    }

    /// Drop one reference on slot `s`.  When the last reference goes,
    /// the foreign teardown runs: the I/O sub-object (if any) is closed
    /// first, then the main resource is freed -- each exactly once.
    pub fn release(&mut self, s: usize)
        requires
            old(self).wf(),
            old(self).slot_active(s as int),
        ensures
            final(self).wf(),
            final(self).spec_next() == old(self).spec_next(),
            final(self).num_slots() == old(self).num_slots(),
            final(self).slot_count(s as int) == old(self).slot_count(s as int) - 1,
            forall|i: int|
                0 <= i < old(self).num_slots() && i != s as int ==> final(self).slot_seq()[i]
                    == old(self).slot_seq()[i],
            final(self).slot_addr(s as int) == old(self).slot_addr(s as int),
            final(self).slot_io(s as int) == old(self).slot_io(s as int),
            old(self).slot_count(s as int) > 1 ==> {
                &&& final(self).freed_log() == old(self).freed_log()
                &&& forall|b: u64| old(self).is_live(b) == final(self).is_live(b)
            },
            old(self).slot_count(s as int) == 1 ==> {
                &&& final(self).freed_log() == match old(self).slot_io(s as int) {
                    None => old(self).freed_log().push(old(self).slot_addr(s as int)),
                    Some(b) => old(self).freed_log().push(b).push(old(self).slot_addr(s as int)),
                }
                &&& final(self).free_count(old(self).slot_addr(s as int)) == 1
                &&& !final(self).is_live(old(self).slot_addr(s as int))
                &&& match old(self).slot_io(s as int) {
                    Some(b) => final(self).free_count(b) == 1 && !final(self).is_live(b),
                    None => true,
                }
            },
            old(self).freed_log().is_prefix_of(final(self).freed_log()),
    {
        let addr = self.slots[s].addr;
        let io = if self.slots[s].io.is_some() {
            Some(*self.slots[s].io.as_ref().unwrap())
        } else {
            None
        };
        let count = self.slots[s].count;
        self.slots.set(s, Slot { addr, io, count: count - 1 });
        proof {
            assert forall|i: int| self.slot_active(i) implies old(self).slot_active(i) by {}
        }
        if count == 1 {
            proof {
                assert(old(self).slot_wf(s as int));
                assert forall|i: int| self.slot_active(i) implies !self.slot_covers(i, addr) by {
                    assert(old(self).slot_active(i));
                    assert(i != s as int);
                    assert(old(self).slots_disjoint(i, s as int));
                }
                assert(!self.guarded(addr));
                assert forall|i: int| self.slot_active(i) implies self.slot_wf(i) by {
                    assert(old(self).slot_active(i));
                    assert(old(self).slot_wf(i));
                }
                assert forall|i: int, j: int|
                    self.slot_active(i) && self.slot_active(j) && i != j
                    implies self.slots_disjoint(i, j) by {
                    assert(old(self).slot_active(i));
                    assert(old(self).slot_active(j));
                }
                assert(self.wf());
            }
            match io {
                None => {
                    self.free(addr);
                },
                Some(b) => {
                    proof {
                        assert forall|i: int| self.slot_active(i) implies !self.slot_covers(i, b) by {
                            assert(old(self).slot_active(i));
                            assert(i != s as int);
                            assert(old(self).slots_disjoint(i, s as int));
                        }
                    }
                    let ghost mid_log = self.freed_log().push(b);
                    self.free(b);
                    self.free(addr);
                    proof {
                        lemma_occurrences_push(mid_log, addr, b);
                    }
                },
            }
        } else {
            proof {
                assert forall|i: int| self.slot_active(i) implies self.slot_wf(i) by {
                    assert(old(self).slot_active(i));
                    assert(old(self).slot_wf(i));
                }
                assert forall|i: int, j: int|
                    self.slot_active(i) && self.slot_active(j) && i != j
                    implies self.slots_disjoint(i, j) by {
                    assert(old(self).slot_active(i));
                    assert(old(self).slot_active(j));
                }
            }
        }
    }
}

} // verus!
