//! A safety-oriented layer over a foreign multimedia-codec library's C
//! interface: ownership-checked handles for foreign-allocated resources
//! (format contexts, codec contexts, packets, frames, dictionaries),
//! reference-counted deferred destruction, and iterator adapters over
//! sentinel-terminated C arrays.
//!
//! The foreign library itself is an opaque collaborator.  Its allocation
//! discipline is captured by [`host::Host`], an explicit model of the
//! foreign runtime's heap, so that the central invariant of the crate --
//! every foreign resource is freed exactly once, never while still
//! referenced -- is stated and machine-checked rather than left to
//! convention.

pub mod error;
pub mod codec;
pub mod format;
pub mod host;
pub mod util;
