//! Decoders: the stream parameters a decoder is opened with, and what it reports about the
//! frames it produces.

use vstd::prelude::*;
use crate::frame::non_negative;
use crate::rational::Rational;
use crate::types::{ChannelLayout, PixelFormat, SampleFormat, StreamKind, spec_pix_fmt_from_av, spec_sample_fmt_from_av};

verus! {

/// The coding parameters of one stream, as the demuxer reports them (`AVCodecParameters`
/// plus the stream's time base and average frame rate).
#[derive(Clone, Copy, Debug, PartialEq, Eq, Structural)]
pub struct CodecParameters {
    /// The stream's media kind.
    pub kind: StreamKind,
    /// The `AVCodecID` of the stream's codec.
    pub codec_id: i32,
    /// Width in pixels (video; `0` otherwise).
    pub width: i32,
    /// Height in pixels (video; `0` otherwise).
    pub height: i32,
    /// Pixel format (video) or sample format (audio), as an FFmpeg format number.
    pub format: i32,
    /// Sample rate in Hz (audio; `0` otherwise).
    pub sample_rate: i32,
    /// Channel layout (audio).
    pub ch_layout: ChannelLayout,
    /// The codec-level frame rate (`0/0` when unknown).
    pub framerate: Rational,
    /// The stream's time base.
    pub time_base: Rational,
    /// The stream's average frame rate (`0/0` when unknown).
    pub avg_frame_rate: Rational,
}

/// A decoder bound to one input stream: what it reports about the frames it produces.
#[derive(Clone, Copy, Debug)]
pub struct Decoder {
    params: CodecParameters,
}

impl Decoder {
    /// The parameters the decoder was opened with.
    pub closed spec fn spec_params(&self) -> CodecParameters {
        self.params
    }

    /// A decoder configured from a stream's parameters.
    pub fn open(params: CodecParameters) -> (d: Decoder)
        ensures
            d.spec_params() == params,
    {
        Decoder { params }
    }

    /// The parameters the decoder was opened with.
    pub fn params(&self) -> (p: CodecParameters)
        ensures
            p == self.spec_params(),
    {
        self.params
    }

    /// The decoded frame width in pixels (video streams).
    pub fn width(&self) -> (w: u32)
        ensures
            w == non_negative(self.spec_params().width),
    {
        if self.params.width < 0 {
            0
        } else {
            self.params.width as u32
        }
    }

    /// The decoded frame height in pixels (video streams).
    pub fn height(&self) -> (h: u32)
        ensures
            h == non_negative(self.spec_params().height),
    {
        if self.params.height < 0 {
            0
        } else {
            self.params.height as u32
        }
    }

    /// The decoder's output pixel format (video streams).
    pub fn pixel_format(&self) -> (p: PixelFormat)
        ensures
            p == spec_pix_fmt_from_av(self.spec_params().format),
    {
        PixelFormat::from_av(self.params.format)
    }

    /// The decoder's output sample format (audio streams).
    pub fn sample_format(&self) -> (f: SampleFormat)
        ensures
            f == spec_sample_fmt_from_av(self.spec_params().format),
    {
        SampleFormat::from_av(self.params.format)
    }

    /// The decoder's output sample rate in Hz (audio streams).
    pub fn sample_rate(&self) -> (r: i32)
        ensures
            r == self.spec_params().sample_rate,
    {
        self.params.sample_rate
    }

    /// The decoder's channel layout (audio streams).
    pub fn ch_layout_owned(&self) -> (l: ChannelLayout)
        ensures
            l == self.spec_params().ch_layout,
    {
        self.params.ch_layout
    }

    /// The codec-level frame rate (`0/0` when unknown).
    pub fn framerate(&self) -> (r: Rational)
        ensures
            r == self.spec_params().framerate,
    {
        self.params.framerate
    }
}

} // verus!
