//! Measure interfaces and measure configuration.
//!
//! A measure turns a stream of observations into a feature value. A
//! stateless measure is a pure function of its input; a stateful measure
//! carries an accumulator that `update` advances and `value` reads without
//! mutating it. The concrete audio measures compose real-valued arithmetic
//! over these interfaces and over the ring buffer; their window sizes are
//! fixed here, at construction time, so that a window can never outgrow the
//! buffer that serves it.

use vstd::prelude::*;

verus! {

/// Stateless measure: a function from an input to a feature value.
pub trait Measure<I, O> {
    fn value(&mut self, input: I) -> O;
}

/// Stateful measure: `update` feeds an observation into the accumulator,
/// `value` reads the current feature value.
pub trait StatefulMeasure<I, O> {
    fn value(&mut self) -> O;

    fn update(&mut self, input: I);
}

/// Output range of the sigmoid normalizer.
pub enum SigmoidRange {
    ZeroToOne,
    NegOneToOne,
}

/// Log-ratio measure: the natural log of a quotient of two feature values,
/// undefined (not-a-number downstream) when the denominator is zero. The
/// measure carries no state; its arithmetic lives with the caller's numeric
/// domain.
pub struct LogRatioMeasure {}

impl LogRatioMeasure {
    pub fn new() -> LogRatioMeasure {
        LogRatioMeasure {  }
    }
}

/// Window sizes of a two-window measure, validated at construction: one
/// ring buffer serves both the short and the long window, so its capacity
/// is the larger of the two frame counts. Asking a buffer for a window
/// wider than its capacity is a configuration error that must surface at
/// construction, never as a wrong mean; a buffer of this capacity admits
/// both windows by construction.
pub struct MeasureWindows {
    pub short_frames: usize,
    pub long_frames: usize,
    pub capacity: usize,
}

impl MeasureWindows {
    pub fn new(short_frames: usize, long_frames: usize) -> (w: MeasureWindows)
        ensures
            w.short_frames == short_frames,
            w.long_frames == long_frames,
            w.capacity == vstd::math::max(short_frames as int, long_frames as int),
            w.short_frames <= w.capacity,
            w.long_frames <= w.capacity,
    {
        let capacity = if short_frames >= long_frames {
            short_frames
        } else {
            long_frames
        };
        MeasureWindows { short_frames, long_frames, capacity }
    }
}

} // verus!
