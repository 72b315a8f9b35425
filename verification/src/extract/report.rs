//! The outcome of a completed frame-extraction run.

use vstd::prelude::*;
use crate::extract::frame::ExtractedFrame;
use crate::time::Duration;

verus! {

/// What an extraction run produced.
#[derive(Debug)]
pub struct ExtractReport {
    frame_count: u64,
    elapsed: Duration,
    frames: Vec<ExtractedFrame>,
}

impl ExtractReport {
    /// The number of frames the run extracted.
    pub closed spec fn spec_frame_count(&self) -> u64 {
        self.frame_count
    }

    /// How long the run took.
    pub closed spec fn spec_elapsed(&self) -> Duration {
        self.elapsed
    }

    /// The frames kept in memory.
    pub closed spec fn spec_frames(&self) -> Seq<ExtractedFrame> {
        self.frames@
    }

    /// A report of `frame_count` frames extracted in `elapsed`, keeping `frames` (empty unless
    /// the output was in memory).
    pub fn new(frame_count: u64, elapsed: Duration, frames: Vec<ExtractedFrame>) -> (r: Self)
        ensures
            r.spec_frame_count() == frame_count,
            r.spec_elapsed() == elapsed,
            r.spec_frames() == frames@,
    {
        ExtractReport { frame_count, elapsed, frames }
    }

    /// How many frames were extracted.
    pub fn frame_count(&self) -> (n: u64)
        ensures
            n == self.spec_frame_count(),
    {
        self.frame_count
    }

    /// Wall-clock time the run took.
    pub fn elapsed(&self) -> (d: Duration)
        ensures
            d == self.spec_elapsed(),
    {
        self.elapsed
    }

    /// The extracted frames, when the output was in memory; empty for the directory and
    /// callback outputs, which don't buffer.
    pub fn frames(&self) -> (f: &[ExtractedFrame])
        ensures
            f@ == self.spec_frames(),
    {
        self.frames.as_slice()
    }

    /// Take ownership of the in-memory frames.
    pub fn into_frames(self) -> (f: Vec<ExtractedFrame>)
        ensures
            f@ == self.spec_frames(),
    {
        self.frames
    }
}

} // verus!
