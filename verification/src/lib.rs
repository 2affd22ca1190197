//! Frame-synchronized feature extraction and color transform support for an
//! audio-reactive video recoloring engine.
//!
//! The crate holds the discrete core of the engine: the fixed-capacity ring
//! buffer backing the streaming statistics, the two-stream merge scheduler,
//! the moving-sum box-filter kernel, the exponential-decay state machine and
//! the per-pixel lookup maps. Continuous (floating-point) signal processing
//! and media I/O live outside, layered on these verified pieces.

pub mod box_filter;
pub mod exp_decay;
pub mod format;
pub mod frame_cursor;
pub mod measure;
pub mod merge;
pub mod pixelmap;
pub mod queue_buf;

use vstd::prelude::*;

verus! {

/// Number of distinct (u, v) chroma byte pairs; the length of every
/// chroma lookup table.
pub const UV_TABLE_SIZE: usize = 65536;

} // verus!
