//! A single extracted video frame, with its pixels ready for encoding or inspection.

use vstd::prelude::*;
use crate::time::Duration;

verus! {

/// One frame produced by the extraction API: packed RGB pixels plus where the frame sits in
/// the run ([`index`](Self::index)) and when it occurs in the source
/// ([`timestamp`](Self::timestamp)).
#[derive(Debug)]
pub struct ExtractedFrame {
    index: u32,
    timestamp: Duration,
    width: u32,
    height: u32,
    rgb: Vec<u8>,
}

impl ExtractedFrame {
    /// The frame's position in the run.
    pub closed spec fn spec_index(&self) -> u32 {
        self.index
    }

    /// When the frame occurs in the source.
    pub closed spec fn spec_timestamp(&self) -> Duration {
        self.timestamp
    }

    /// `(width, height)` in pixels.
    pub closed spec fn spec_dimensions(&self) -> (u32, u32) {
        (self.width, self.height)
    }

    /// The packed RGB bytes.
    pub closed spec fn spec_rgb(&self) -> Seq<u8> {
        self.rgb@
    }

    /// A frame at run position `index`, occurring at `timestamp`, of `width`×`height` packed
    /// RGB pixels.
    pub fn new(index: u32, timestamp: Duration, width: u32, height: u32, rgb: Vec<u8>) -> (f: Self)
        ensures
            f.spec_index() == index,
            f.spec_timestamp() == timestamp,
            f.spec_dimensions() == (width, height),
            f.spec_rgb() == rgb@,
    {
        ExtractedFrame { index, timestamp, width, height, rgb }
    }

    /// This frame's zero-based position in the extraction run.
    pub fn index(&self) -> (i: u32)
        ensures
            i == self.spec_index(),
    {
        self.index
    }

    /// When this frame occurs in the source video.
    pub fn timestamp(&self) -> (t: Duration)
        ensures
            t == self.spec_timestamp(),
    {
        self.timestamp
    }

    /// The frame's `(width, height)` in pixels.
    pub fn dimensions(&self) -> (d: (u32, u32))
        ensures
            d == self.spec_dimensions(),
    {
        (self.width, self.height)
    }

    /// The raw, tightly packed RGB (8:8:8) pixels: row-major, `width * height * 3` bytes.
    pub fn to_rgb_bytes(&self) -> (b: &[u8])
        ensures
            b@ == self.spec_rgb(),
    {
        self.rgb.as_slice()
    }

    /// `true` when the pixel buffer holds exactly `width * height` packed RGB pixels, as an
    /// image built over it requires.
    pub fn rgb_matches_dimensions(&self) -> (b: bool)
        ensures
            b == (self.spec_rgb().len() == self.spec_dimensions().0 * self.spec_dimensions().1 * 3),
    {
        let w = self.width as u128;
        let h = self.height as u128;
        assert(w * h * 3 <= 0xffff_ffff * 0xffff_ffff * 3) by (nonlinear_arith)
            requires
                w <= 0xffff_ffff,
                h <= 0xffff_ffff,
        ;
        self.rgb.len() as u128 == w * h * 3
    }
}

} // verus!
