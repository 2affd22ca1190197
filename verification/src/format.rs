//! Stream format descriptors.
//!
//! Immutable value structs computed once per stream from the first observed
//! sample, carrying the sizing quantities the rest of the engine reads: how
//! many samples one audio frame holds, how many bytes one interleaved video
//! frame holds, and how many frames fit in a span of time. Time spans are
//! whole milliseconds here, so the frame counts are exact ceilings; the
//! per-frame durations in seconds are continuous quantities and live with
//! the callers' floating-point arithmetic.

use vstd::arithmetic::mul::lemma_mul_upper_bound;
use vstd::prelude::*;

verus! {

/// Frames in `ms` milliseconds of audio: one frame per sample position, so
/// `ceil(ms * rate * channels / 1000)`.
pub open spec fn audio_frames_in_ms(rate: u32, channels: u32, ms: u32) -> int {
    ((ms * rate * channels) + 999) / 1000
}

/// Frames in `ms` milliseconds of video at `fps_num / fps_den` frames per
/// second: `ceil(ms * fps_num / (1000 * fps_den))`.
pub open spec fn video_frames_in_ms(fps_num: u32, fps_den: u32, ms: u32) -> int {
    ((ms * fps_num) + (1000 * fps_den - 1)) / (1000 * fps_den)
}

/// Audio stream format: sample rate, channel count, and the derived frame
/// size (one interleaved sample position per channel).
#[derive(Clone, Copy, Debug)]
pub struct AudioFormat {
    pub rate: u32,
    pub channels: u32,
    pub frame_size: usize,
}

impl AudioFormat {
    /// The derived frame size agrees with the channel count.
    pub open spec fn wf(self) -> bool {
        self.frame_size == self.channels
    }

    /// Placeholder before the first sample is observed.
    pub fn empty() -> (f: AudioFormat)
        ensures
            f.rate == 0,
            f.channels == 0,
            f.frame_size == 0,
            f.wf(),
    {
        AudioFormat { rate: 0, channels: 0, frame_size: 0 }
    }

    pub fn new(rate: u32, channels: u32) -> (f: AudioFormat)
        ensures
            f.rate == rate,
            f.channels == channels,
            f.frame_size == channels,
            f.wf(),
    {
        AudioFormat { rate, channels, frame_size: channels as usize }
    }

    /// Number of audio frames in `ms` milliseconds, rounded up.
    pub fn frames_in_ms(&self, ms: u32) -> (n: usize)
        requires
            audio_frames_in_ms(self.rate, self.channels, ms) <= usize::MAX,
        ensures
            n == audio_frames_in_ms(self.rate, self.channels, ms),
    {
        proof {
            lemma_mul_upper_bound(ms as int, u32::MAX as int, self.rate as int, u32::MAX as int);
            lemma_mul_upper_bound(
                ms as int * self.rate as int,
                u32::MAX as int * u32::MAX as int,
                self.channels as int,
                u32::MAX as int,
            );
        }
        let samples: u128 = ms as u128 * self.rate as u128 * self.channels as u128;
        let n: u128 = (samples + 999) / 1000;
        n as usize
    }
}

/// Video stream format: frame rate as an exact fraction, dimensions, and
/// the derived pixel count and byte size of one interleaved 4-byte-per-
/// pixel frame.
#[derive(Clone, Copy, Debug)]
pub struct VideoFormat {
    pub fps_num: u32,
    pub fps_den: u32,
    pub width: u32,
    pub height: u32,
    pub pixel_count: usize,
    pub frame_size: usize,
}

impl VideoFormat {
    /// The denominator is positive and the derived sizes agree with the
    /// dimensions.
    pub open spec fn wf(self) -> bool {
        &&& self.fps_den >= 1
        &&& self.pixel_count == self.width * self.height
        &&& self.frame_size == 4 * self.pixel_count
    }

    /// Placeholder before the first frame is observed.
    pub fn empty() -> (f: VideoFormat)
        ensures
            f.fps_num == 0,
            f.width == 0,
            f.height == 0,
            f.wf(),
    {
        VideoFormat { fps_num: 0, fps_den: 1, width: 0, height: 0, pixel_count: 0, frame_size: 0 }
    }

    pub fn new(fps_num: u32, fps_den: u32, width: u32, height: u32) -> (f: VideoFormat)
        requires
            fps_den >= 1,
            4 * (width * height) <= usize::MAX,
        ensures
            f.fps_num == fps_num,
            f.fps_den == fps_den,
            f.width == width,
            f.height == height,
            f.pixel_count == width * height,
            f.frame_size == 4 * f.pixel_count,
            f.wf(),
    {
        proof {
            lemma_mul_upper_bound(width as int, u32::MAX as int, height as int, u32::MAX as int);
        }
        let pixels: u64 = width as u64 * height as u64;
        let pixel_count = pixels as usize;
        VideoFormat { fps_num, fps_den, width, height, pixel_count, frame_size: 4 * pixel_count }
    }

    /// Number of video frames in `ms` milliseconds, rounded up.
    pub fn frames_in_ms(&self, ms: u32) -> (n: usize)
        requires
            self.wf(),
            video_frames_in_ms(self.fps_num, self.fps_den, ms) <= usize::MAX,
        ensures
            n == video_frames_in_ms(self.fps_num, self.fps_den, ms),
    {
        proof {
            lemma_mul_upper_bound(ms as int, u32::MAX as int, self.fps_num as int, u32::MAX as int);
        }
        let ticks: u128 = ms as u128 * self.fps_num as u128;
        let denom: u128 = 1000u128 * self.fps_den as u128;
        let n: u128 = (ticks + (denom - 1)) / denom;
        n as usize
    }
}

} // verus!
