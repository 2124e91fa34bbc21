//! Reference-counted deferred destruction for a foreign resource.
//!
//! A [`Destroy`] value is one reference to a teardown record registered
//! in the [`Host`].  Cloning a reference goes through [`Destroy::share`]
//! (which increments the count); every reference is eventually consumed
//! by [`Destroy::release`], and the foreign teardown runs exactly when
//! the last reference is released -- so the resource is freed exactly
//! once, after the final drop and never before.

use vstd::prelude::*;

use crate::host::Host;

verus! {

/// Which foreign teardown runs when the last reference is released:
/// closing an input context is a single combined free, while an output
/// context must close its I/O sub-object before the context itself.
#[derive(Copy, Clone, Debug, PartialEq, Eq, Structural)]
pub enum Mode {
    Input,
    Output,
}

/// One reference to a shared teardown record.
///
/// The type has no `Clone`: new references exist only through
/// [`Destroy::share`], which pays for itself with a count increment, so
/// references and count stay in step.
pub struct Destroy {
    slot: usize,
    mode: Mode,
}

impl Destroy {
    /// The teardown record this reference points at.
    pub closed spec fn slot_id(&self) -> int {
        self.slot as int
    }

    pub closed spec fn spec_mode(&self) -> Mode {
        self.mode
    }

    /// The reference is backed by a still-active record whose shape
    /// matches its mode.
    pub open spec fn valid(&self, h: &Host) -> bool {
        &&& h.slot_active(self.slot_id())
        &&& (self.spec_mode() == Mode::Input <==> h.slot_io(self.slot_id()) is None)
    }

    /// Register a teardown record for `addr` with one reference.  For
    /// `Mode::Output`, `io` names the I/O sub-object closed before the
    /// context itself; `Mode::Input` has no separate sub-object.
    pub fn new(host: &mut Host, addr: u64, io: Option<u64>, mode: Mode) -> (d: Destroy)
        requires
            old(host).wf(),
            old(host).is_live(addr),
            !old(host).guarded(addr),
            match io {
                Some(b) => old(host).is_live(b) && !old(host).guarded(b) && b != addr,
                None => true,
            },
            (mode == Mode::Input) <==> (io is None),
        ensures
            final(host).wf(),
            d.valid(final(host)),
            d.spec_mode() == mode,
            d.slot_id() == old(host).num_slots(),
            final(host).num_slots() == old(host).num_slots() + 1,
            final(host).slot_addr(d.slot_id()) == addr,
            final(host).slot_io(d.slot_id()) == io,
            final(host).slot_count(d.slot_id()) == 1,
            final(host).freed_log() == old(host).freed_log(),
            final(host).spec_next() == old(host).spec_next(),
            forall|b: u64| old(host).is_live(b) == final(host).is_live(b),
    {
        let slot = host.register(addr, io);
        Destroy { slot, mode }
    }

    /// Take one more reference to the same record, as a derived object
    /// that must keep the resource alive does.
    pub fn share(&self, host: &mut Host) -> (d: Destroy)
        requires
            old(host).wf(),
            self.valid(old(host)),
            old(host).slot_count(self.slot_id()) < u64::MAX,
        ensures
            final(host).wf(),
            d.valid(final(host)),
            self.valid(final(host)),
            d.slot_id() == self.slot_id(),
            d.spec_mode() == self.spec_mode(),
            final(host).num_slots() == old(host).num_slots(),
            final(host).slot_count(self.slot_id()) == old(host).slot_count(self.slot_id()) + 1,
            final(host).slot_addr(self.slot_id()) == old(host).slot_addr(self.slot_id()),
            final(host).slot_io(self.slot_id()) == old(host).slot_io(self.slot_id()),
            final(host).freed_log() == old(host).freed_log(),
            final(host).spec_next() == old(host).spec_next(),
            forall|b: u64| old(host).is_live(b) == final(host).is_live(b),
    {
        host.retain(self.slot);
        Destroy { slot: self.slot, mode: self.mode }
    }

    /// Consume this reference.  While other references remain nothing
    /// is freed; releasing the last reference runs the foreign teardown
    /// exactly once, with the I/O sub-object (output mode) closed
    /// strictly before the context itself.
    pub fn release(self, host: &mut Host)
        requires
            old(host).wf(),
            self.valid(old(host)),
        ensures
            final(host).wf(),
            final(host).spec_next() == old(host).spec_next(),
            final(host).num_slots() == old(host).num_slots(),
            final(host).slot_count(self.slot_id()) == old(host).slot_count(self.slot_id()) - 1,
            final(host).slot_addr(self.slot_id()) == old(host).slot_addr(self.slot_id()),
            final(host).slot_io(self.slot_id()) == old(host).slot_io(self.slot_id()),
            old(host).slot_count(self.slot_id()) > 1 ==> {
                &&& final(host).freed_log() == old(host).freed_log()
                &&& forall|b: u64| old(host).is_live(b) == final(host).is_live(b)
            },
            old(host).slot_count(self.slot_id()) == 1 ==> {
                &&& final(host).freed_log() == match old(host).slot_io(self.slot_id()) {
                    None => old(host).freed_log().push(old(host).slot_addr(self.slot_id())),
                    Some(b) => old(host).freed_log().push(b).push(
                        old(host).slot_addr(self.slot_id()),
                    ),
                }
                &&& final(host).free_count(old(host).slot_addr(self.slot_id())) == 1
                &&& !final(host).is_live(old(host).slot_addr(self.slot_id()))
                &&& match old(host).slot_io(self.slot_id()) {
                    Some(b) => final(host).free_count(b) == 1 && !final(host).is_live(b),
                    None => true,
                }
            },
            old(host).freed_log().is_prefix_of(final(host).freed_log()),
    {
        host.release(self.slot);
    }
}

} // verus!
