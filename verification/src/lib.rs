//! Verified core of a client-side batch image-prompt studio.
//!
//! The library covers the logic of the tool: building a bounded-length
//! generation prompt for each of the ten fixed story slots, framing the
//! JSON request sent for a slot, computing the centered 16:9 crop
//! rectangle used to post-process a returned image, and the sequential
//! batch state machine that tolerates per-slot failures.  The browser
//! glue (network, canvas, storage) lives outside the library and only
//! exchanges plain values with it.

pub mod batch;
pub mod geometry;
pub mod json;
pub mod prompt;
pub mod settings;
pub mod slots;
pub mod text;
