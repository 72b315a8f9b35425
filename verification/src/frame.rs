//! Decoded (uncompressed) media frames: their shape and timing.

use vstd::prelude::*;
use crate::types::{ChannelLayout, PixelFormat, SampleFormat, spec_pix_fmt_from_av, spec_sample_fmt_from_av};

verus! {

/// A decoded frame: a single image (video) or a buffer of audio samples, described by its
/// dimensions, its pixel or sample format (an FFmpeg format number), its sample count, rate
/// and channel count, and its timestamps (`i64::MIN` when unknown).
#[derive(Clone, Copy, Debug)]
pub struct Frame {
    width: i32,
    height: i32,
    format: i32,
    nb_samples: i32,
    sample_rate: i32,
    ch_layout: ChannelLayout,
    pts: i64,
    best_effort_timestamp: i64,
}

/// `v` clamped at zero, as a `u32`.
pub open spec fn non_negative(v: i32) -> u32 {
    if v < 0 {
        0
    } else {
        v as u32
    }
}

/// A timestamp, or `None` when it is the unknown sentinel.
pub open spec fn known_ts(ts: i64) -> Option<i64> {
    if ts == i64::MIN {
        None
    } else {
        Some(ts)
    }
}

/// How an audio frame's samples are laid out in memory.
#[derive(Clone, Copy, Debug, PartialEq, Eq, Structural)]
pub enum SampleLayout {
    /// One buffer of `values` interleaved samples (all channels).
    Interleaved { values: u64 },
    /// `planes` buffers (one per channel) of `values` samples each.
    Planar { planes: u64, values: u64 },
    /// A format without a typed sample view.
    Untyped,
}

/// The layout of `nb` samples per channel over `ch` channels in format `fmt`.
pub open spec fn spec_sample_layout(fmt: SampleFormat, nb: u32, ch: u32) -> SampleLayout {
    match fmt {
        SampleFormat::U8 | SampleFormat::S16 | SampleFormat::S32 | SampleFormat::Flt
        | SampleFormat::Dbl => SampleLayout::Interleaved { values: (nb * ch) as u64 },
        SampleFormat::S16p | SampleFormat::S32p | SampleFormat::Fltp | SampleFormat::Dblp => {
            SampleLayout::Planar { planes: ch as u64, values: nb as u64 }
        },
        SampleFormat::Other(_) => SampleLayout::Untyped,
    }
}

impl Frame {
    pub closed spec fn spec_width(&self) -> i32 {
        self.width
    }

    pub closed spec fn spec_height(&self) -> i32 {
        self.height
    }

    pub closed spec fn spec_format(&self) -> i32 {
        self.format
    }

    pub closed spec fn spec_nb_samples(&self) -> i32 {
        self.nb_samples
    }

    pub closed spec fn spec_sample_rate(&self) -> i32 {
        self.sample_rate
    }

    pub closed spec fn spec_ch_layout(&self) -> ChannelLayout {
        self.ch_layout
    }

    pub closed spec fn spec_pts(&self) -> i64 {
        self.pts
    }

    pub closed spec fn spec_best_effort(&self) -> i64 {
        self.best_effort_timestamp
    }

    /// A video frame of `width`×`height` pixels in pixel format `pix_fmt`.
    pub fn video(width: i32, height: i32, pix_fmt: PixelFormat, pts: i64, best_effort_timestamp: i64) -> (f: Frame)
        ensures
            f.spec_width() == width,
            f.spec_height() == height,
            f.spec_format() == crate::types::spec_pix_fmt_to_av(pix_fmt),
            f.spec_nb_samples() == 0,
            f.spec_sample_rate() == 0,
            f.spec_ch_layout() == (ChannelLayout { nb_channels: 0, mask: 0 }),
            f.spec_pts() == pts,
            f.spec_best_effort() == best_effort_timestamp,
    {
        Frame {
            width,
            height,
            format: pix_fmt.to_av(),
            nb_samples: 0,
            sample_rate: 0,
            ch_layout: ChannelLayout { nb_channels: 0, mask: 0 },
            pts,
            best_effort_timestamp,
        }
    }

    /// An audio frame of `nb_samples` samples per channel in sample format `sample_fmt`.
    pub fn audio(
        sample_fmt: SampleFormat,
        nb_samples: i32,
        sample_rate: i32,
        ch_layout: ChannelLayout,
        pts: i64,
        best_effort_timestamp: i64,
    ) -> (f: Frame)
        ensures
            f.spec_width() == 0,
            f.spec_height() == 0,
            f.spec_format() == crate::types::spec_sample_fmt_to_av(sample_fmt),
            f.spec_nb_samples() == nb_samples,
            f.spec_sample_rate() == sample_rate,
            f.spec_ch_layout() == ch_layout,
            f.spec_pts() == pts,
            f.spec_best_effort() == best_effort_timestamp,
    {
        Frame {
            width: 0,
            height: 0,
            format: sample_fmt.to_av(),
            nb_samples,
            sample_rate,
            ch_layout,
            pts,
            best_effort_timestamp,
        }
    }

    /// Width in pixels (video frames; `0` for audio).
    pub fn width(&self) -> (w: u32)
        ensures
            w == non_negative(self.spec_width()),
    {
        if self.width < 0 {
            0
        } else {
            self.width as u32
        }
    }

    /// Height in pixels (video frames; `0` for audio).
    pub fn height(&self) -> (h: u32)
        ensures
            h == non_negative(self.spec_height()),
    {
        if self.height < 0 {
            0
        } else {
            self.height as u32
        }
    }

    /// The pixel format, for video frames.
    pub fn pixel_format(&self) -> (p: PixelFormat)
        ensures
            p == spec_pix_fmt_from_av(self.spec_format()),
    {
        PixelFormat::from_av(self.format)
    }

    /// The sample format, for audio frames.
    pub fn sample_format(&self) -> (f: SampleFormat)
        ensures
            f == spec_sample_fmt_from_av(self.spec_format()),
    {
        SampleFormat::from_av(self.format)
    }

    /// Number of audio samples per channel (audio frames).
    pub fn sample_count(&self) -> (n: u32)
        ensures
            n == non_negative(self.spec_nb_samples()),
    {
        if self.nb_samples < 0 {
            0
        } else {
            self.nb_samples as u32
        }
    }

    /// Sample rate in Hz (audio frames).
    pub fn sample_rate(&self) -> (r: u32)
        ensures
            r == non_negative(self.spec_sample_rate()),
    {
        if self.sample_rate < 0 {
            0
        } else {
            self.sample_rate as u32
        }
    }

    /// How this frame's PCM samples are laid out in memory: one interleaved buffer of
    /// `samples × channels` values for packed formats, one buffer of `samples` values per
    /// channel for planar formats, and nothing typed for other formats (or video frames).
    pub fn sample_layout(&self) -> (l: SampleLayout)
        ensures
            l == spec_sample_layout(
                spec_sample_fmt_from_av(self.spec_format()),
                non_negative(self.spec_nb_samples()),
                non_negative(self.spec_ch_layout().nb_channels),
            ),
    {
        let nb: u64 = if self.nb_samples < 0 { 0 } else { self.nb_samples as u64 };
        let ch: u64 = if self.ch_layout.nb_channels < 0 { 0 } else { self.ch_layout.nb_channels as u64 };
        assert(nb * ch <= 0xffff_ffff * 0xffff_ffff) by (nonlinear_arith)
            requires
                nb <= 0xffff_ffff,
                ch <= 0xffff_ffff,
        ;
        match self.sample_format() {
            SampleFormat::U8 | SampleFormat::S16 | SampleFormat::S32 | SampleFormat::Flt
            | SampleFormat::Dbl => SampleLayout::Interleaved { values: nb * ch },
            SampleFormat::S16p | SampleFormat::S32p | SampleFormat::Fltp | SampleFormat::Dblp => {
                SampleLayout::Planar { planes: ch, values: nb }
            },
            SampleFormat::Other(_) => SampleLayout::Untyped,
        }
    }

    /// The channel layout (audio frames).
    pub fn ch_layout_copy(&self) -> (l: ChannelLayout)
        ensures
            l == self.spec_ch_layout(),
    {
        self.ch_layout
    }

    /// The raw format number (pixel format for video, sample format for audio).
    pub fn format(&self) -> (f: i32)
        ensures
            f == self.spec_format(),
    {
        self.format
    }

    /// The raw sample rate.
    pub fn raw_sample_rate(&self) -> (r: i32)
        ensures
            r == self.spec_sample_rate(),
    {
        self.sample_rate
    }

    /// The presentation timestamp, in the source stream's time base (`None` if unknown).
    pub fn pts(&self) -> (t: Option<i64>)
        ensures
            t == known_ts(self.spec_pts()),
    {
        if self.pts == i64::MIN {
            None
        } else {
            Some(self.pts)
        }
    }

    /// Set the presentation timestamp (in the target encoder's time base before encoding).
    pub fn set_pts(&mut self, pts: i64)
        ensures
            final(self).spec_pts() == pts,
            final(self).spec_best_effort() == old(self).spec_best_effort(),
            final(self).spec_width() == old(self).spec_width(),
            final(self).spec_height() == old(self).spec_height(),
            final(self).spec_format() == old(self).spec_format(),
            final(self).spec_nb_samples() == old(self).spec_nb_samples(),
            final(self).spec_sample_rate() == old(self).spec_sample_rate(),
            final(self).spec_ch_layout() == old(self).spec_ch_layout(),
    {
        self.pts = pts;
    }

    /// The decoder's best estimate of this frame's timestamp (`None` if unknown).
    pub fn best_effort_timestamp(&self) -> (t: Option<i64>)
        ensures
            t == known_ts(self.spec_best_effort()),
    {
        if self.best_effort_timestamp == i64::MIN {
            None
        } else {
            Some(self.best_effort_timestamp)
        }
    }

    /// The usable presentation timestamp: the best-effort estimate, else the raw pts, else
    /// `0` when both are unknown.
    pub fn best_ts(&self) -> (t: i64)
        ensures
            t == (match known_ts(self.spec_best_effort()) {
                Some(b) => b,
                None => match known_ts(self.spec_pts()) {
                    Some(p) => p,
                    None => 0,
                },
            }),
    {
        match self.best_effort_timestamp() {
            Some(b) => b,
            None => match self.pts() {
                Some(p) => p,
                None => 0,
            },
        }
    }
}

} // verus!
