//! Encoder configuration (video and audio) and the audio encoder's sample chunking.
//!
//! A builder collects options; `build` validates them and resolves the defaults into the
//! configuration the codec context is opened with. Audio encoders additionally need frames of
//! a fixed number of samples: [`AudioEncoder`] buffers resampled samples in a FIFO and cuts
//! them into exactly-sized, contiguously timestamped chunks.

use vstd::prelude::*;
use crate::codec::decoder::Decoder;
use crate::codec::resampler::ResampleConfig;
use crate::error::{Error, Result};
use crate::frame::{Frame, non_negative};
use crate::rational::{Bitrate, Framerate, Rational};
use crate::types::{
    AudioCodec, ChannelLayout, Channels, H264Preset, H264Profile, PixelFormat, SampleFormat,
    SampleRate, VideoCodec, spec_channels_layout, spec_hz, spec_pix_fmt_from_av,
    spec_sample_fmt_to_av,
};

verus! {

/// `FF_THREAD_FRAME | FF_THREAD_SLICE`: let each codec pick frame or slice threading.
pub const THREAD_FRAME_AND_SLICE: i32 = 3;

/// Worker count `0`: size the codec's thread pool to the CPU.
pub const THREAD_COUNT_AUTO: i32 = 0;

/// `AV_CODEC_FLAG_GLOBAL_HEADER`: put codec extradata in the container header.
pub const AV_CODEC_FLAG_GLOBAL_HEADER: i32 = 0x0040_0000;

/// `AV_CODEC_CAP_VARIABLE_FRAME_SIZE`: the encoder accepts audio frames of any size.
pub const AV_CODEC_CAP_VARIABLE_FRAME_SIZE: u32 = 0x0001_0000;

/// Codec context `flags` with the global-header flag set (the other flags kept).
pub fn with_global_header_flag(flags: i32) -> (f: i32)
    ensures
        f == flags | AV_CODEC_FLAG_GLOBAL_HEADER,
        f & AV_CODEC_FLAG_GLOBAL_HEADER != 0,
{
    let f = flags | AV_CODEC_FLAG_GLOBAL_HEADER;
    assert(f & AV_CODEC_FLAG_GLOBAL_HEADER != 0) by (bit_vector)
        requires
            f == flags | 0x0040_0000i32,
    ;
    f
}

/// Whether an encoder with these `capabilities` accepts audio frames of any size.
pub fn accepts_variable_frame_size(capabilities: u32) -> (b: bool)
    ensures
        b == (capabilities & AV_CODEC_CAP_VARIABLE_FRAME_SIZE != 0),
{
    capabilities & AV_CODEC_CAP_VARIABLE_FRAME_SIZE != 0
}

/// The options a [`VideoEncoderBuilder`] has collected.
#[derive(Clone, Copy, Debug, PartialEq, Eq, Structural)]
pub struct VideoEncoderOptions {
    pub codec: Option<VideoCodec>,
    pub width: Option<u32>,
    pub height: Option<u32>,
    pub pix_fmt: Option<PixelFormat>,
    pub framerate: Option<Framerate>,
    pub time_base: Option<Rational>,
    pub bitrate: Option<Bitrate>,
    pub preset: Option<H264Preset>,
    pub profile: Option<H264Profile>,
    pub gop_size: Option<i32>,
    pub global_header: bool,
}

/// The configuration a video encoder is opened with.
#[derive(Clone, Copy, Debug, PartialEq, Eq, Structural)]
pub struct VideoEncoderConfig {
    pub codec: VideoCodec,
    pub width: i32,
    pub height: i32,
    pub pix_fmt: PixelFormat,
    pub framerate: Framerate,
    pub time_base: Rational,
    pub bitrate: Option<Bitrate>,
    pub gop_size: i32,
    pub global_header: bool,
    pub thread_count: i32,
    pub thread_type: i32,
    /// The x264/x265 preset (only for H.264/H.265).
    pub preset: Option<H264Preset>,
    /// The x264/x265 profile (only for H.264/H.265).
    pub profile: Option<H264Profile>,
}

/// A configured video encoder.
#[derive(Clone, Copy, Debug)]
pub struct VideoEncoder {
    config: VideoEncoderConfig,
}

impl View for VideoEncoder {
    type V = VideoEncoderConfig;

    closed spec fn view(&self) -> VideoEncoderConfig {
        self.config
    }
}

/// Builder for a [`VideoEncoder`].
#[derive(Clone, Copy, Debug)]
pub struct VideoEncoderBuilder {
    opts: VideoEncoderOptions,
}

impl View for VideoEncoderBuilder {
    type V = VideoEncoderOptions;

    closed spec fn view(&self) -> VideoEncoderOptions {
        self.opts
    }
}

impl Default for VideoEncoderBuilder {
    /// No options set; the global-header flag defaults on (MP4/MKV/WebM need codec extradata
    /// in the container header).
    fn default() -> (b: Self)
        ensures
            b@ == (VideoEncoderOptions {
                codec: None,
                width: None,
                height: None,
                pix_fmt: None,
                framerate: None,
                time_base: None,
                bitrate: None,
                preset: None,
                profile: None,
                gop_size: None,
                global_header: true,
            }),
    {
        VideoEncoderBuilder {
            opts: VideoEncoderOptions {
                codec: None,
                width: None,
                height: None,
                pix_fmt: None,
                framerate: None,
                time_base: None,
                bitrate: None,
                preset: None,
                profile: None,
                gop_size: None,
                global_header: true,
            },
        }
    }
}

/// `v` as an `i32`, saturating at `i32::MAX`.
pub open spec fn saturate_i32(v: u32) -> i32 {
    if v > i32::MAX {
        i32::MAX
    } else {
        v as i32
    }
}

/// The configuration resolved from valid options: default pixel format YUV420p, frame rate
/// 25 fps, time base `1/framerate`, GOP size 12, automatic frame/slice threading, and the
/// preset/profile kept only for H.264/H.265.
pub open spec fn spec_video_config(o: VideoEncoderOptions) -> VideoEncoderConfig {
    let codec = o.codec.unwrap();
    let framerate = match o.framerate {
        Some(f) => f,
        None => Framerate(Rational { num: 25, den: 1 }),
    };
    VideoEncoderConfig {
        codec,
        width: o.width.unwrap() as i32,
        height: o.height.unwrap() as i32,
        pix_fmt: match o.pix_fmt {
            Some(p) => p,
            None => PixelFormat::Yuv420p,
        },
        framerate,
        time_base: match o.time_base {
            Some(t) => t,
            None => Rational { num: framerate.0.den, den: framerate.0.num },
        },
        bitrate: o.bitrate,
        gop_size: match o.gop_size {
            Some(g) => g,
            None => 12,
        },
        global_header: o.global_header,
        thread_count: THREAD_COUNT_AUTO,
        thread_type: THREAD_FRAME_AND_SLICE,
        preset: if codec == VideoCodec::H264 || codec == VideoCodec::H265 {
            o.preset
        } else {
            None
        },
        profile: if codec == VideoCodec::H264 || codec == VideoCodec::H265 {
            o.profile
        } else {
            None
        },
    }
}

/// How a video encoder's timing is resolved: the configured frame rate (else 25 fps), and the
/// configured time base, else the frame rate's inverse, so one tick is one frame.
pub proof fn lemma_video_timing(o: VideoEncoderOptions)
    ensures
        spec_video_config(o).framerate == (match o.framerate {
            Some(f) => f,
            None => Framerate(Rational { num: 25, den: 1 }),
        }),
        o.time_base matches Some(t) ==> spec_video_config(o).time_base == t,
        o.time_base is None ==> spec_video_config(o).time_base.num == spec_video_config(o).framerate.0.den
            && spec_video_config(o).time_base.den == spec_video_config(o).framerate.0.num,
        o.time_base is None ==> spec_video_config(o).time_base.num * spec_video_config(o).framerate.0.num
            == spec_video_config(o).time_base.den * spec_video_config(o).framerate.0.den,
{
    let c = spec_video_config(o);
    if o.time_base is None {
        assert(c.time_base.num * c.framerate.0.num == c.time_base.den * c.framerate.0.den) by (nonlinear_arith)
            requires
                c.time_base.num == c.framerate.0.den,
                c.time_base.den == c.framerate.0.num,
        ;
    }
}

impl VideoEncoder {
    /// Start configuring a video encoder.
    pub fn builder() -> (b: VideoEncoderBuilder)
        ensures
            b@.codec is None && b@.width is None && b@.height is None && b@.pix_fmt is None
                && b@.framerate is None && b@.time_base is None && b@.bitrate is None
                && b@.preset is None && b@.profile is None && b@.gop_size is None
                && b@.global_header,
    {
        VideoEncoderBuilder::default()
    }

    /// The encoder's time base. Packets it produces carry timestamps in this base.
    pub fn time_base(&self) -> (tb: Rational)
        ensures
            tb == self@.time_base,
    {
        self.config.time_base
    }

    /// The full configuration the encoder is opened with.
    pub fn config(&self) -> (c: VideoEncoderConfig)
        ensures
            c == self@,
    {
        self.config
    }
}

/// An encoder that can feed a muxer output stream: the time base its packets carry, which the
/// muxer rescales from. Implemented by [`VideoEncoder`] and [`AudioEncoder`].
pub trait Encoder {
    /// The time base of the packets this encoder produces.
    spec fn packet_time_base(&self) -> Rational;

    /// The time base of the packets this encoder produces.
    fn stream_time_base(&self) -> (tb: Rational)
        ensures
            tb == self.packet_time_base(),
    ;
}

impl Encoder for VideoEncoder {
    open spec fn packet_time_base(&self) -> Rational {
        self@.time_base
    }

    fn stream_time_base(&self) -> (tb: Rational) {
        self.config.time_base
    }
}

impl Encoder for AudioEncoder {
    open spec fn packet_time_base(&self) -> Rational {
        self.config.time_base
    }

    fn stream_time_base(&self) -> (tb: Rational) {
        self.config.time_base
    }
}

impl VideoEncoderBuilder {
    /// The codec to encode with (required).
    pub fn codec(self, codec: VideoCodec) -> (b: Self)
        ensures
            b@ == (VideoEncoderOptions { codec: Some(codec), ..self@ }),
    {
        VideoEncoderBuilder { opts: VideoEncoderOptions { codec: Some(codec), ..self.opts } }
    }

    /// Output resolution in pixels; `build` rejects values outside `1..=i32::MAX`.
    pub fn resolution(self, width: u32, height: u32) -> (b: Self)
        ensures
            b@ == (VideoEncoderOptions { width: Some(width), height: Some(height), ..self@ }),
    {
        VideoEncoderBuilder {
            opts: VideoEncoderOptions { width: Some(width), height: Some(height), ..self.opts },
        }
    }

    /// Inherit resolution, pixel format and frame rate from a decoder, for whichever of them
    /// are not set yet (a frame rate only when the decoder's is known, i.e. positive).
    pub fn from_decoder(self, decoder: &Decoder) -> (b: Self)
        ensures
            b@ == (VideoEncoderOptions {
                width: match self@.width {
                    Some(w) => Some(w),
                    None => Some(non_negative(decoder.spec_params().width)),
                },
                height: match self@.height {
                    Some(h) => Some(h),
                    None => Some(non_negative(decoder.spec_params().height)),
                },
                pix_fmt: match self@.pix_fmt {
                    Some(p) => Some(p),
                    None => Some(spec_pix_fmt_from_av(decoder.spec_params().format)),
                },
                framerate: if self@.framerate is None && decoder.spec_params().framerate.num > 0
                    && decoder.spec_params().framerate.den > 0 {
                    Some(Framerate(decoder.spec_params().framerate))
                } else {
                    self@.framerate
                },
                ..self@
            }),
    {
        let mut opts = self.opts;
        if opts.width.is_none() {
            opts.width = Some(decoder.width());
        }
        if opts.height.is_none() {
            opts.height = Some(decoder.height());
        }
        if opts.pix_fmt.is_none() {
            opts.pix_fmt = Some(decoder.pixel_format());
        }
        let fr = decoder.framerate();
        if opts.framerate.is_none() && fr.num > 0 && fr.den > 0 {
            opts.framerate = Some(Framerate(fr));
        }
        VideoEncoderBuilder { opts }
    }

    /// The pixel format to encode in (defaults to YUV420p).
    pub fn pixel_format(self, pix_fmt: PixelFormat) -> (b: Self)
        ensures
            b@ == (VideoEncoderOptions { pix_fmt: Some(pix_fmt), ..self@ }),
    {
        VideoEncoderBuilder { opts: VideoEncoderOptions { pix_fmt: Some(pix_fmt), ..self.opts } }
    }

    /// The output frame rate (defaults to 25 fps).
    pub fn framerate(self, framerate: Framerate) -> (b: Self)
        ensures
            b@ == (VideoEncoderOptions { framerate: Some(framerate), ..self@ }),
    {
        VideoEncoderBuilder { opts: VideoEncoderOptions { framerate: Some(framerate), ..self.opts } }
    }

    /// The encoder time base for incoming frame timestamps (defaults to `1/framerate`).
    pub fn time_base(self, time_base: Rational) -> (b: Self)
        ensures
            b@ == (VideoEncoderOptions { time_base: Some(time_base), ..self@ }),
    {
        VideoEncoderBuilder { opts: VideoEncoderOptions { time_base: Some(time_base), ..self.opts } }
    }

    /// Target bit rate.
    pub fn bitrate(self, bitrate: Bitrate) -> (b: Self)
        ensures
            b@ == (VideoEncoderOptions { bitrate: Some(bitrate), ..self@ }),
    {
        VideoEncoderBuilder { opts: VideoEncoderOptions { bitrate: Some(bitrate), ..self.opts } }
    }

    /// Speed/quality preset (applied for H.264/H.265).
    pub fn preset(self, preset: H264Preset) -> (b: Self)
        ensures
            b@ == (VideoEncoderOptions { preset: Some(preset), ..self@ }),
    {
        VideoEncoderBuilder { opts: VideoEncoderOptions { preset: Some(preset), ..self.opts } }
    }

    /// Codec profile (applied for H.264/H.265).
    pub fn profile(self, profile: H264Profile) -> (b: Self)
        ensures
            b@ == (VideoEncoderOptions { profile: Some(profile), ..self@ }),
    {
        VideoEncoderBuilder { opts: VideoEncoderOptions { profile: Some(profile), ..self.opts } }
    }

    /// Keyframe interval (group-of-pictures size), saturated to `i32::MAX`.
    pub fn gop_size(self, gop_size: u32) -> (b: Self)
        ensures
            b@ == (VideoEncoderOptions { gop_size: Some(saturate_i32(gop_size)), ..self@ }),
    {
        let g: i32 = if gop_size > i32::MAX as u32 {
            i32::MAX
        } else {
            gop_size as i32
        };
        VideoEncoderBuilder { opts: VideoEncoderOptions { gop_size: Some(g), ..self.opts } }
    }

    /// Override the global-header flag (on by default; needed for MP4/MKV/WebM).
    pub fn global_header(self, enabled: bool) -> (b: Self)
        ensures
            b@ == (VideoEncoderOptions { global_header: enabled, ..self@ }),
    {
        VideoEncoderBuilder { opts: VideoEncoderOptions { global_header: enabled, ..self.opts } }
    }

    /// Validate the options and resolve the encoder configuration. A codec and a resolution
    /// are required; a dimension beyond `i32::MAX` is reported (saturated) as unsupported, as
    /// is a zero dimension.
    pub fn build(self) -> (r: Result<VideoEncoder>)
        ensures
            self@.codec is None ==> (r matches Err(Error::InvalidConfig(m)) && m@
                == "video encoder requires a codec"@),
            self@.codec is Some && (self@.width is None || self@.height is None) ==> (r matches Err(
                Error::InvalidConfig(m),
            ) && m@ == "video encoder requires a resolution"@),
            self@.codec is Some && self@.width is Some && self@.height is Some ==> {
                let w = self@.width.unwrap();
                let h = self@.height.unwrap();
                if w > i32::MAX || h > i32::MAX {
                    r matches Err(Error::UnsupportedResolution { width, height }) && width
                        == saturate_i32(w) && height == saturate_i32(h)
                } else if w == 0 || h == 0 {
                    r matches Err(Error::UnsupportedResolution { width, height }) && width == w
                        && height == h
                } else {
                    r matches Ok(enc) && enc@ == spec_video_config(self@)
                }
            },
            self@.time_base is None ==> (r matches Ok(enc) ==> enc@.time_base.num
                == enc@.framerate.0.den && enc@.time_base.den == enc@.framerate.0.num),
    {
        proof {
            lemma_video_timing(self@);
            reveal_strlit("video encoder requires a codec");
            reveal_strlit("video encoder requires a resolution");
        }
        let o = self.opts;
        let codec = match o.codec {
            Some(c) => c,
            None => return Err(Error::InvalidConfig("video encoder requires a codec")),
        };
        let (width, height) = match (o.width, o.height) {
            (Some(w), Some(h)) => (w, h),
            _ => return Err(Error::InvalidConfig("video encoder requires a resolution")),
        };
        if width > i32::MAX as u32 || height > i32::MAX as u32 {
            let sw: i32 = if width > i32::MAX as u32 { i32::MAX } else { width as i32 };
            let sh: i32 = if height > i32::MAX as u32 { i32::MAX } else { height as i32 };
            return Err(Error::UnsupportedResolution { width: sw, height: sh });
        }
        if width == 0 || height == 0 {
            return Err(Error::UnsupportedResolution { width: width as i32, height: height as i32 });
        }
        let framerate = match o.framerate {
            Some(f) => f,
            None => Framerate::fps(25),
        };
        let time_base = match o.time_base {
            Some(t) => t,
            None => framerate.time_base(),
        };
        let x26x = codec.takes_x26x_options();
        Ok(
            VideoEncoder {
                config: VideoEncoderConfig {
                    codec,
                    width: width as i32,
                    height: height as i32,
                    pix_fmt: match o.pix_fmt {
                        Some(p) => p,
                        None => PixelFormat::Yuv420p,
                    },
                    framerate,
                    time_base,
                    bitrate: o.bitrate,
                    gop_size: match o.gop_size {
                        Some(g) => g,
                        None => 12,
                    },
                    global_header: o.global_header,
                    thread_count: THREAD_COUNT_AUTO,
                    thread_type: THREAD_FRAME_AND_SLICE,
                    preset: if x26x { o.preset } else { None },
                    profile: if x26x { o.profile } else { None },
                },
            },
        )
    }
}

/// The options an [`AudioEncoderBuilder`] has collected. `layout` is a decoder's exact
/// channel layout inherited via `from_decoder`, used only when no channel configuration is
/// set explicitly.
#[derive(Clone, Copy, Debug, PartialEq, Eq, Structural)]
pub struct AudioEncoderOptions {
    pub codec: Option<AudioCodec>,
    pub bitrate: Option<Bitrate>,
    pub sample_rate: Option<SampleRate>,
    pub channels: Option<Channels>,
    pub layout: Option<ChannelLayout>,
    pub sample_format: Option<SampleFormat>,
    pub global_header: Option<bool>,
}

/// What the chosen audio encoder reports: the sample formats it accepts (in its order of
/// preference; empty when unknown), its required samples per frame once opened (`0` when
/// unconstrained) and whether it accepts frames of any size.
#[derive(Clone, Debug)]
pub struct AudioEncoderCaps {
    pub supported_sample_formats: Vec<i32>,
    pub frame_size: i32,
    pub variable_frame_size: bool,
}

/// The configuration an audio encoder is opened with.
#[derive(Clone, Copy, Debug, PartialEq, Eq, Structural)]
pub struct AudioEncoderConfig {
    pub codec: AudioCodec,
    pub sample_rate: i32,
    pub sample_fmt: i32,
    pub layout: ChannelLayout,
    pub bitrate: Option<Bitrate>,
    pub time_base: Rational,
    pub global_header: bool,
    pub thread_count: i32,
    pub thread_type: i32,
    /// Samples per encoded frame.
    pub frame_size: i32,
}

/// `AV_SAMPLE_FMT_FLTP`, the common encoder input for AAC/Opus/Vorbis/MP3.
pub const SAMPLE_FMT_FLTP: i32 = 8;

/// The chunk size fed to encoders that accept frames of any size.
pub const VARIABLE_FRAME_CHUNK: i32 = 4096;

/// The configuration resolved from options with a codec and the encoder's report: rate
/// defaults to 44.1 kHz; an explicit channel configuration wins over an inherited layout,
/// which wins over stereo; the sample format is the explicit one, else the encoder's first
/// supported one, else planar float; the time base is `1/rate` (at least `1/1`); the
/// global-header flag defaults on; the frame size is the encoder's fixed size, or 4096 when
/// it has none.
pub open spec fn spec_audio_config(o: AudioEncoderOptions, formats: Seq<i32>, frame_size: i32, variable: bool) -> AudioEncoderConfig {
    let rate = match o.sample_rate {
        Some(r) => spec_hz(r),
        None => 44100i32,
    };
    AudioEncoderConfig {
        codec: o.codec.unwrap(),
        sample_rate: rate,
        sample_fmt: match o.sample_format {
            Some(f) => spec_sample_fmt_to_av(f),
            None => if formats.len() > 0 {
                formats[0]
            } else {
                SAMPLE_FMT_FLTP
            },
        },
        layout: match o.channels {
            Some(c) => spec_channels_layout(c),
            None => match o.layout {
                Some(l) => l,
                None => spec_channels_layout(Channels::Stereo),
            },
        },
        bitrate: o.bitrate,
        time_base: Rational { num: 1, den: if rate < 1 { 1 } else { rate } },
        global_header: match o.global_header {
            Some(g) => g,
            None => true,
        },
        thread_count: THREAD_COUNT_AUTO,
        thread_type: THREAD_FRAME_AND_SLICE,
        frame_size: if frame_size > 0 && !variable {
            frame_size
        } else {
            VARIABLE_FRAME_CHUNK
        },
    }
}

/// How an audio encoder's sample format is chosen: the configured one; otherwise one the
/// encoder accepts (its first, most preferred) when it names any; planar float only when it
/// names none.
pub proof fn lemma_audio_sample_format(o: AudioEncoderOptions, formats: Seq<i32>, frame_size: i32, variable: bool)
    ensures
        o.sample_format matches Some(f) ==> spec_audio_config(o, formats, frame_size, variable).sample_fmt
            == spec_sample_fmt_to_av(f),
        o.sample_format is None && formats.len() > 0 ==> formats.contains(
            spec_audio_config(o, formats, frame_size, variable).sample_fmt,
        ) && spec_audio_config(o, formats, frame_size, variable).sample_fmt == formats[0],
        o.sample_format is None && formats.len() == 0 ==> spec_audio_config(
            o,
            formats,
            frame_size,
            variable,
        ).sample_fmt == SAMPLE_FMT_FLTP,
{
    if o.sample_format is None && formats.len() > 0 {
        assert(formats[0] == spec_audio_config(o, formats, frame_size, variable).sample_fmt);
    }
}

/// One encoder input frame cut from the FIFO: its sample count and timestamp (in
/// `1/sample_rate`).
#[derive(Clone, Copy, Debug, PartialEq, Eq, Structural)]
pub struct AudioChunk {
    pub nb_samples: i32,
    pub pts: i64,
}

/// The total number of samples in `chunks`.
pub open spec fn total_samples(chunks: Seq<AudioChunk>) -> int
    decreases chunks.len(),
{
    if chunks.len() == 0 {
        0
    } else {
        total_samples(chunks.drop_last()) + chunks.last().nb_samples
    }
}

/// `chunks` are contiguous from `pts`: each starts where the previous one ended.
pub open spec fn contiguous_from(chunks: Seq<AudioChunk>, pts: int) -> bool {
    forall|k: int| 0 <= k < chunks.len() ==> #[trigger] chunks[k].pts == pts + total_samples(chunks.take(k))
}

/// The samples of two chunk runs add up.
pub proof fn lemma_total_samples_concat(a: Seq<AudioChunk>, b: Seq<AudioChunk>)
    ensures
        total_samples(a + b) == total_samples(a) + total_samples(b),
    decreases b.len(),
{
    if b.len() == 0 {
        assert(a + b =~= a);
    } else {
        lemma_total_samples_concat(a, b.drop_last());
        assert((a + b).drop_last() =~= a + b.drop_last());
        assert((a + b).last() == b.last());
    }
}

/// Chunks that each hold at least one sample hold at least as many samples as there are
/// chunks.
proof fn lemma_nonempty_chunks_total(chunks: Seq<AudioChunk>)
    requires
        forall|k: int| 0 <= k < chunks.len() ==> 0 < #[trigger] chunks[k].nb_samples,
    ensures
        total_samples(chunks) >= chunks.len(),
    decreases chunks.len(),
{
    if chunks.len() > 0 {
        let d = chunks.drop_last();
        assert forall|k: int| 0 <= k < d.len() implies 0 < #[trigger] d[k].nb_samples by {
            assert(d[k] == chunks[k]);
        }
        lemma_nonempty_chunks_total(d);
        assert(chunks.last() == chunks[chunks.len() - 1]);
    }
}

/// Chunks cut by successive calls continue one another: when `a` runs contiguously from `pts`
/// and `b` from where `a` ended, `a` followed by `b` runs contiguously from `pts` and holds the
/// samples of both. With the per-call contracts of [`AudioEncoder::encode`] and
/// [`AudioEncoder::flush`], a whole encode's chunks are timestamped by the running sample count
/// from zero.
pub proof fn lemma_chunks_continue(a: Seq<AudioChunk>, b: Seq<AudioChunk>, pts: int)
    requires
        contiguous_from(a, pts),
        contiguous_from(b, pts + total_samples(a)),
    ensures
        contiguous_from(a + b, pts),
        total_samples(a + b) == total_samples(a) + total_samples(b),
{
    lemma_total_samples_concat(a, b);
    let ab = a + b;
    assert forall|k: int| 0 <= k < ab.len() implies #[trigger] ab[k].pts == pts + total_samples(ab.take(k)) by {
        if k < a.len() {
            assert(ab.take(k) =~= a.take(k));
            assert(ab[k] == a[k]);
        } else {
            let j = k - a.len();
            assert(ab.take(k) =~= a + b.take(j));
            lemma_total_samples_concat(a, b.take(j));
            assert(ab[k] == b[j]);
        }
    }
}

/// An audio encoder: its configuration, the resampler built from its first input frame, the
/// number of resampled samples waiting in its FIFO, and the timestamp of the next chunk.
#[derive(Clone, Copy, Debug)]
pub struct AudioEncoder {
    pub config: AudioEncoderConfig,
    pub resampler: Option<ResampleConfig>,
    pub fifo_samples: i32,
    pub next_pts: i64,
}

/// Builder for an [`AudioEncoder`].
#[derive(Clone, Copy, Debug)]
pub struct AudioEncoderBuilder {
    opts: AudioEncoderOptions,
}

impl View for AudioEncoderBuilder {
    type V = AudioEncoderOptions;

    closed spec fn view(&self) -> AudioEncoderOptions {
        self.opts
    }
}

impl Default for AudioEncoderBuilder {
    fn default() -> (b: Self)
        ensures
            b@ == (AudioEncoderOptions {
                codec: None,
                bitrate: None,
                sample_rate: None,
                channels: None,
                layout: None,
                sample_format: None,
                global_header: None,
            }),
    {
        AudioEncoderBuilder {
            opts: AudioEncoderOptions {
                codec: None,
                bitrate: None,
                sample_rate: None,
                channels: None,
                layout: None,
                sample_format: None,
                global_header: None,
            },
        }
    }
}

impl AudioEncoderBuilder {
    /// The codec to encode with (required).
    pub fn codec(self, codec: AudioCodec) -> (b: Self)
        ensures
            b@ == (AudioEncoderOptions { codec: Some(codec), ..self@ }),
    {
        AudioEncoderBuilder { opts: AudioEncoderOptions { codec: Some(codec), ..self.opts } }
    }

    /// Target bit rate (ignored by lossless codecs like FLAC).
    pub fn bitrate(self, bitrate: Bitrate) -> (b: Self)
        ensures
            b@ == (AudioEncoderOptions { bitrate: Some(bitrate), ..self@ }),
    {
        AudioEncoderBuilder { opts: AudioEncoderOptions { bitrate: Some(bitrate), ..self.opts } }
    }

    /// Output sample rate (defaults to the decoder's via `from_decoder`, else 44.1 kHz).
    pub fn sample_rate(self, sample_rate: SampleRate) -> (b: Self)
        ensures
            b@ == (AudioEncoderOptions { sample_rate: Some(sample_rate), ..self@ }),
    {
        AudioEncoderBuilder { opts: AudioEncoderOptions { sample_rate: Some(sample_rate), ..self.opts } }
    }

    /// Output channel configuration (defaults to the decoder's layout, else stereo).
    pub fn channels(self, channels: Channels) -> (b: Self)
        ensures
            b@ == (AudioEncoderOptions { channels: Some(channels), ..self@ }),
    {
        AudioEncoderBuilder { opts: AudioEncoderOptions { channels: Some(channels), ..self.opts } }
    }

    /// The sample format to encode in (defaults to the encoder's preferred format).
    pub fn sample_format(self, sample_format: SampleFormat) -> (b: Self)
        ensures
            b@ == (AudioEncoderOptions { sample_format: Some(sample_format), ..self@ }),
    {
        AudioEncoderBuilder {
            opts: AudioEncoderOptions { sample_format: Some(sample_format), ..self.opts },
        }
    }

    /// Inherit the sample rate (when unset and known, i.e. positive) and the exact channel
    /// layout (when none was inherited yet) from a decoder.
    pub fn from_decoder(self, decoder: &Decoder) -> (b: Self)
        ensures
            b@ == (AudioEncoderOptions {
                sample_rate: if self@.sample_rate is None && decoder.spec_params().sample_rate > 0 {
                    Some(SampleRate::Hz(decoder.spec_params().sample_rate))
                } else {
                    self@.sample_rate
                },
                layout: match self@.layout {
                    Some(l) => Some(l),
                    None => Some(decoder.spec_params().ch_layout),
                },
                ..self@
            }),
    {
        let mut opts = self.opts;
        let rate = decoder.sample_rate();
        if opts.sample_rate.is_none() && rate > 0 {
            opts.sample_rate = Some(SampleRate::Hz(rate));
        }
        if opts.layout.is_none() {
            opts.layout = Some(decoder.ch_layout_owned());
        }
        AudioEncoderBuilder { opts }
    }

    /// Override the global-header flag (on by default).
    pub fn global_header(self, enabled: bool) -> (b: Self)
        ensures
            b@ == (AudioEncoderOptions { global_header: Some(enabled), ..self@ }),
    {
        AudioEncoderBuilder { opts: AudioEncoderOptions { global_header: Some(enabled), ..self.opts } }
    }

    /// Validate the options and resolve the encoder configuration from them and from what the
    /// chosen encoder reports (`caps`). A codec is required.
    pub fn build(self, caps: &AudioEncoderCaps) -> (r: Result<AudioEncoder>)
        ensures
            self@.codec is None ==> (r matches Err(Error::InvalidConfig(m)) && m@
                == "audio encoder requires a codec"@),
            self@.codec is Some ==> (r matches Ok(enc) && enc.config == spec_audio_config(
                self@,
                caps.supported_sample_formats@,
                caps.frame_size,
                caps.variable_frame_size,
            ) && enc.resampler is None && enc.fifo_samples == 0 && enc.next_pts == 0),
            self@.sample_format is None && caps.supported_sample_formats@.len() > 0 ==> (r matches Ok(
                enc,
            ) ==> caps.supported_sample_formats@.contains(enc.config.sample_fmt)),
    {
        proof {
            lemma_audio_sample_format(
                self@,
                caps.supported_sample_formats@,
                caps.frame_size,
                caps.variable_frame_size,
            );
            reveal_strlit("audio encoder requires a codec");
        }
        let o = self.opts;
        let codec = match o.codec {
            Some(c) => c,
            None => return Err(Error::InvalidConfig("audio encoder requires a codec")),
        };
        let rate = match o.sample_rate {
            Some(r) => r.hz(),
            None => 44100,
        };
        let layout = match o.channels {
            Some(c) => c.to_layout(),
            None => match o.layout {
                Some(l) => l,
                None => Channels::Stereo.to_layout(),
            },
        };
        let sample_fmt = match o.sample_format {
            Some(f) => f.to_av(),
            None => if caps.supported_sample_formats.len() > 0 {
                caps.supported_sample_formats[0]
            } else {
                SAMPLE_FMT_FLTP
            },
        };
        let frame_size = if caps.frame_size > 0 && !caps.variable_frame_size {
            caps.frame_size
        } else {
            VARIABLE_FRAME_CHUNK
        };
        Ok(
            AudioEncoder {
                config: AudioEncoderConfig {
                    codec,
                    sample_rate: rate,
                    sample_fmt,
                    layout,
                    bitrate: o.bitrate,
                    time_base: Rational::new(1, if rate < 1 { 1 } else { rate }),
                    global_header: match o.global_header {
                        Some(g) => g,
                        None => true,
                    },
                    thread_count: THREAD_COUNT_AUTO,
                    thread_type: THREAD_FRAME_AND_SLICE,
                    frame_size,
                },
                resampler: None,
                fifo_samples: 0,
                next_pts: 0,
            },
        )
    }
}

impl AudioEncoder {
    /// The encoder's invariant: a positive frame size, a non-negative FIFO, and room for
    /// every buffered sample's timestamp.
    pub open spec fn wf(&self) -> bool {
        &&& self.config.frame_size > 0
        &&& self.fifo_samples >= 0
        &&& self.next_pts >= 0
        &&& self.next_pts + self.fifo_samples <= i64::MAX
    }

    /// Start configuring an audio encoder.
    pub fn builder() -> (b: AudioEncoderBuilder)
        ensures
            b@.codec is None && b@.bitrate is None && b@.sample_rate is None && b@.channels is None
                && b@.layout is None && b@.sample_format is None && b@.global_header is None,
    {
        AudioEncoderBuilder::default()
    }

    /// The encoder's time base (`1/sample_rate`). Its packets carry timestamps in this base.
    pub fn time_base(&self) -> (tb: Rational)
        ensures
            tb == self.config.time_base,
    {
        self.config.time_base
    }

    /// Build the resampler on first use, from the first frame's real input format (its sample
    /// format, rate and channel layout) to the encoder's.
    pub fn ensure_resampler(&mut self, frame: &Frame)
        ensures
            final(self).config == old(self).config,
            final(self).fifo_samples == old(self).fifo_samples,
            final(self).next_pts == old(self).next_pts,
            old(self).resampler is Some ==> final(self).resampler == old(self).resampler,
            old(self).resampler is None ==> final(self).resampler == Some(ResampleConfig {
                in_fmt: frame.spec_format(),
                in_rate: frame.spec_sample_rate(),
                in_layout: frame.spec_ch_layout(),
                out_fmt: old(self).config.sample_fmt,
                out_rate: old(self).config.sample_rate,
                out_layout: old(self).config.layout,
            }),
    {
        if self.resampler.is_some() {
            return;
        }
        self.resampler = Some(ResampleConfig {
            in_fmt: frame.format(),
            in_rate: frame.raw_sample_rate(),
            in_layout: frame.ch_layout_copy(),
            out_fmt: self.config.sample_fmt,
            out_rate: self.config.sample_rate,
            out_layout: self.config.layout,
        });
    }

    /// Append `produced` resampled samples to the FIFO. Fails while no resampler exists yet.
    pub fn push_resampled(&mut self, produced: i32) -> (r: Result<()>)
        requires
            old(self).wf(),
            produced >= 0 ==> old(self).fifo_samples + produced <= i32::MAX
                && old(self).next_pts + old(self).fifo_samples + produced <= i64::MAX,
        ensures
            final(self).wf(),
            final(self).config == old(self).config,
            final(self).resampler == old(self).resampler,
            final(self).next_pts == old(self).next_pts,
            old(self).resampler is None ==> (r matches Err(Error::InvalidConfig(m)) && m@
                == "audio encoder has no input yet"@) && final(self).fifo_samples == old(self).fifo_samples,
            old(self).resampler is Some ==> r is Ok && final(self).fifo_samples == old(self).fifo_samples
                + (if produced > 0 { produced } else { 0 }),
    {
        proof {
            reveal_strlit("audio encoder has no input yet");
        }
        if self.resampler.is_none() {
            return Err(Error::InvalidConfig("audio encoder has no input yet"));
        }
        if produced > 0 {
            self.fifo_samples = self.fifo_samples + produced;
        }
        Ok(())
    }

    /// Cut the FIFO into encoder frames: as many full `frame_size` chunks as it holds, plus —
    /// on the final flush — one last partial chunk with whatever remains. Each chunk's
    /// timestamp is the running sample count.
    pub fn drain_fifo(&mut self, final_flush: bool) -> (chunks: Vec<AudioChunk>)
        requires
            old(self).wf(),
        ensures
            final(self).wf(),
            final(self).config == old(self).config,
            final(self).resampler == old(self).resampler,
            total_samples(chunks@) == old(self).fifo_samples - final(self).fifo_samples,
            final(self).next_pts == old(self).next_pts + total_samples(chunks@),
            contiguous_from(chunks@, old(self).next_pts as int),
            forall|k: int| 0 <= k < chunks@.len() - 1 ==> #[trigger] chunks@[k].nb_samples
                == old(self).config.frame_size,
            forall|k: int| 0 <= k < chunks@.len() ==> 0 < #[trigger] chunks@[k].nb_samples
                <= old(self).config.frame_size,
            !final_flush ==> final(self).fifo_samples < old(self).config.frame_size
                && forall|k: int| 0 <= k < chunks@.len() ==> #[trigger] chunks@[k].nb_samples
                == old(self).config.frame_size,
            final_flush ==> final(self).fifo_samples == 0,
    {
        let mut chunks: Vec<AudioChunk> = Vec::new();
        let frame_size = self.config.frame_size;
        let ghost start_fifo = self.fifo_samples;
        let ghost start_pts = self.next_pts;
        loop
            invariant_except_break
                forall|k: int| 0 <= k < chunks@.len() ==> #[trigger] chunks@[k].nb_samples == frame_size,
            invariant
                self.wf(),
                self.config == old(self).config,
                self.resampler == old(self).resampler,
                frame_size == self.config.frame_size,
                start_fifo == old(self).fifo_samples,
                start_pts == old(self).next_pts,
                total_samples(chunks@) == start_fifo - self.fifo_samples,
                self.next_pts == start_pts + total_samples(chunks@),
                contiguous_from(chunks@, start_pts as int),
                forall|k: int| 0 <= k < chunks@.len() ==> 0 < #[trigger] chunks@[k].nb_samples <= frame_size,
            ensures
                self.wf(),
                self.config == old(self).config,
                self.resampler == old(self).resampler,
                total_samples(chunks@) == start_fifo - self.fifo_samples,
                self.next_pts == start_pts + total_samples(chunks@),
                contiguous_from(chunks@, start_pts as int),
                forall|k: int| 0 <= k < chunks@.len() - 1 ==> #[trigger] chunks@[k].nb_samples == frame_size,
                forall|k: int| 0 <= k < chunks@.len() ==> 0 < #[trigger] chunks@[k].nb_samples <= frame_size,
                !final_flush ==> self.fifo_samples < frame_size
                    && forall|k: int| 0 <= k < chunks@.len() ==> #[trigger] chunks@[k].nb_samples == frame_size,
                final_flush ==> self.fifo_samples == 0,
            decreases self.fifo_samples,
        {
            let size = self.fifo_samples;
            let take = if size >= frame_size {
                frame_size
            } else if final_flush && size > 0 {
                size
            } else {
                break;
            };
            let chunk = AudioChunk { nb_samples: take, pts: self.next_pts };
            let ghost before = chunks@;
            chunks.push(chunk);
            proof {
                assert(chunks@.drop_last() =~= before);
                assert forall|k: int| 0 <= k < chunks@.len() implies #[trigger] chunks@[k].pts
                    == start_pts + total_samples(chunks@.take(k)) by {
                    if k < before.len() {
                        assert(chunks@.take(k) =~= before.take(k));
                    } else {
                        assert(chunks@.take(k) =~= before);
                    }
                }
            }
            self.next_pts = self.next_pts + take as i64;
            self.fifo_samples = self.fifo_samples - take;
            if take < frame_size {
                assert(self.fifo_samples == 0);
                assert(forall|k: int| 0 <= k < chunks@.len() - 1 ==> #[trigger] chunks@[k].nb_samples == frame_size) by {
                    assert(forall|k: int| 0 <= k < chunks@.len() - 1 ==> chunks@[k] == before[k]);
                }
                break;
            }
        }
        chunks
    }

    /// Submit the resampled output of one decoded frame: build the resampler from the frame
    /// if this is the first one, append the `produced` samples to the FIFO, and return the
    /// full-size chunks that became ready.
    pub fn encode(&mut self, frame: &Frame, produced: i32) -> (r: Result<Vec<AudioChunk>>)
        requires
            old(self).wf(),
            produced >= 0 ==> old(self).fifo_samples + produced <= i32::MAX
                && old(self).next_pts + old(self).fifo_samples + produced <= i64::MAX,
        ensures
            final(self).wf(),
            final(self).config == old(self).config,
            final(self).resampler is Some,
            r matches Ok(chunks) && total_samples(chunks@) == old(self).fifo_samples + (if produced > 0 {
                produced
            } else {
                0
            }) - final(self).fifo_samples && final(self).next_pts == old(self).next_pts + total_samples(
                chunks@,
            ) && contiguous_from(chunks@, old(self).next_pts as int) && final(self).fifo_samples
                < old(self).config.frame_size && forall|k: int|
                0 <= k < chunks@.len() ==> #[trigger] chunks@[k].nb_samples == old(self).config.frame_size,
    {
        self.ensure_resampler(frame);
        let pushed = self.push_resampled(produced);
        match pushed {
            Ok(()) => {},
            Err(e) => return Err(e),
        }
        Ok(self.drain_fifo(false))
    }

    /// Flush at end of stream: append the resampler's `tail` (when a resampler exists), then
    /// cut every remaining sample into chunks, the last one possibly partial. Afterwards the
    /// FIFO is empty.
    pub fn flush(&mut self, tail: i32) -> (r: Result<Vec<AudioChunk>>)
        requires
            old(self).wf(),
            tail >= 0 ==> old(self).fifo_samples + tail <= i32::MAX
                && old(self).next_pts + old(self).fifo_samples + tail <= i64::MAX,
        ensures
            final(self).wf(),
            final(self).config == old(self).config,
            final(self).resampler == old(self).resampler,
            final(self).fifo_samples == 0,
            r matches Ok(chunks) && total_samples(chunks@) == old(self).fifo_samples + (if old(self).resampler is Some
                && tail > 0 {
                tail
            } else {
                0
            }) && final(self).next_pts == old(self).next_pts + total_samples(chunks@)
                && contiguous_from(chunks@, old(self).next_pts as int) && (forall|k: int|
                0 <= k < chunks@.len() - 1 ==> #[trigger] chunks@[k].nb_samples == old(self).config.frame_size)
                && (forall|k: int| 0 <= k < chunks@.len() ==> 0 < #[trigger] chunks@[k].nb_samples
                <= old(self).config.frame_size),
            old(self).fifo_samples == 0 && (old(self).resampler is None || tail <= 0) ==> (r matches Ok(
                chunks,
            ) && chunks@.len() == 0),
    {
        if self.resampler.is_some() {
            let pushed = self.push_resampled(tail);
            match pushed {
                Ok(()) => {},
                Err(e) => return Err(e),
            }
        }
        let chunks = self.drain_fifo(true);
        proof {
            lemma_nonempty_chunks_total(chunks@);
        }
        Ok(chunks)
    }
}

} // verus!
