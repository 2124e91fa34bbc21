//! Demuxing-side handles: input formats, format contexts, streams,
//! packets, and their teardown discipline.

pub mod context;
pub mod destroy;
pub mod disposition;
pub mod input;
pub mod packet;
pub mod side_data;
pub mod stream;
