//! Frame windowing over a sample buffer.
//!
//! A decoded buffer holds a contiguous run of samples; a frame is a
//! fixed-size window into it. The cursor yields the half-open sample range
//! of each successive frame and advances one sample per step, exactly as
//! the stream slicing does; a frame is yielded only while the whole window
//! fits inside the buffer, so every returned range is in bounds.

use vstd::prelude::*;

verus! {

/// Cursor over a buffer of `len` samples, windowed into frames of
/// `window` samples.
pub struct FrameCursor {
    pos: usize,
    window: usize,
    len: usize,
}

impl FrameCursor {
    /// Next frame's start position.
    pub closed spec fn pos_spec(self) -> int {
        self.pos as int
    }

    /// Samples per frame.
    pub closed spec fn window_spec(self) -> int {
        self.window as int
    }

    /// Samples in the underlying buffer.
    pub closed spec fn len_spec(self) -> int {
        self.len as int
    }

    /// Whether one more whole frame fits.
    pub open spec fn has_next_spec(self) -> bool {
        self.pos_spec() + self.window_spec() <= self.len_spec()
    }

    /// A frame holds at least one sample.
    pub open spec fn wf(self) -> bool {
        self.window_spec() >= 1
    }

    /// A cursor at the start of a buffer of `len` samples.
    pub fn new(window: usize, len: usize) -> (c: FrameCursor)
        requires
            window >= 1,
        ensures
            c.wf(),
            c.pos_spec() == 0,
            c.window_spec() == window,
            c.len_spec() == len,
    {
        FrameCursor { pos: 0usize, window, len }
    }

    /// Start position of the next frame.
    pub fn pos(&self) -> (p: usize)
        ensures
            p == self.pos_spec(),
    {
        self.pos
    }

    pub fn has_next(&self) -> (r: bool)
        ensures
            r == self.has_next_spec(),
    {
        self.window <= self.len && self.pos <= self.len - self.window
    }

    /// The sample range `[start, end)` of the next frame, advancing the
    /// cursor by one sample; `None` once no whole frame is left. A returned
    /// range always lies within the buffer.
    pub fn next(&mut self) -> (r: Option<(usize, usize)>)
        requires
            old(self).wf(),
        ensures
            final(self).wf(),
            old(self).window_spec() == final(self).window_spec(),
            old(self).len_spec() == final(self).len_spec(),
            old(self).has_next_spec() ==> r == Some(
                (
                    old(self).pos_spec() as usize,
                    (old(self).pos_spec() + old(self).window_spec()) as usize,
                ),
            ) && final(self).pos_spec() == old(self).pos_spec() + 1,
            !old(self).has_next_spec() ==> r is None && final(self).pos_spec() == old(
                self,
            ).pos_spec(),
    {
        if self.window <= self.len && self.pos <= self.len - self.window {
            let start = self.pos;
            let end = self.pos + self.window;
            self.pos = self.pos + 1;
            Some((start, end))
        } else {
            None
        }
    }
}

} // verus!
