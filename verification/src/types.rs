//! Strongly-typed media parameters and their FFmpeg numeric encodings.
//!
//! The numeric values are FFmpeg's stable ABI values (`AVPixelFormat`, `AVSampleFormat`,
//! `AVMediaType`, `AVCodecID`, `AV_CH_*` masks).

use vstd::prelude::*;

verus! {

/// A video pixel layout.
#[derive(Clone, Copy, Debug, PartialEq, Eq, Structural)]
pub enum PixelFormat {
    /// Planar YUV 4:2:0 (`AV_PIX_FMT_YUV420P`).
    Yuv420p,
    /// Planar YUV 4:2:2.
    Yuv422p,
    /// Planar YUV 4:4:4.
    Yuv444p,
    /// Semi-planar YUV 4:2:0 with interleaved chroma.
    Nv12,
    /// Packed RGB 8:8:8.
    Rgb24,
    /// Packed BGR 8:8:8.
    Bgr24,
    /// Packed RGBA 8:8:8:8.
    Rgba,
    /// Packed BGRA 8:8:8:8.
    Bgra,
    /// 8-bit greyscale.
    Gray8,
    /// Any other `AVPixelFormat`, by value.
    Other(i32),
}

/// The `AVPixelFormat` value of `p`.
pub open spec fn spec_pix_fmt_to_av(p: PixelFormat) -> i32 {
    match p {
        PixelFormat::Yuv420p => 0,
        PixelFormat::Rgb24 => 2,
        PixelFormat::Bgr24 => 3,
        PixelFormat::Yuv422p => 4,
        PixelFormat::Yuv444p => 5,
        PixelFormat::Gray8 => 8,
        PixelFormat::Nv12 => 23,
        PixelFormat::Rgba => 26,
        PixelFormat::Bgra => 28,
        PixelFormat::Other(v) => v,
    }
}

/// The [`PixelFormat`] named by `AVPixelFormat` value `v`.
pub open spec fn spec_pix_fmt_from_av(v: i32) -> PixelFormat {
    if v == 0 {
        PixelFormat::Yuv420p
    } else if v == 2 {
        PixelFormat::Rgb24
    } else if v == 3 {
        PixelFormat::Bgr24
    } else if v == 4 {
        PixelFormat::Yuv422p
    } else if v == 5 {
        PixelFormat::Yuv444p
    } else if v == 8 {
        PixelFormat::Gray8
    } else if v == 23 {
        PixelFormat::Nv12
    } else if v == 26 {
        PixelFormat::Rgba
    } else if v == 28 {
        PixelFormat::Bgra
    } else {
        PixelFormat::Other(v)
    }
}

impl PixelFormat {
    /// The `AVPixelFormat` value.
    pub fn to_av(self) -> (v: i32)
        ensures
            v == spec_pix_fmt_to_av(self),
    {
        match self {
            PixelFormat::Yuv420p => 0,
            PixelFormat::Rgb24 => 2,
            PixelFormat::Bgr24 => 3,
            PixelFormat::Yuv422p => 4,
            PixelFormat::Yuv444p => 5,
            PixelFormat::Gray8 => 8,
            PixelFormat::Nv12 => 23,
            PixelFormat::Rgba => 26,
            PixelFormat::Bgra => 28,
            PixelFormat::Other(v) => v,
        }
    }

    /// The format named by an `AVPixelFormat` value; unknown values become [`Other`](Self::Other).
    pub fn from_av(v: i32) -> (p: PixelFormat)
        ensures
            p == spec_pix_fmt_from_av(v),
    {
        match v {
            0 => PixelFormat::Yuv420p,
            2 => PixelFormat::Rgb24,
            3 => PixelFormat::Bgr24,
            4 => PixelFormat::Yuv422p,
            5 => PixelFormat::Yuv444p,
            8 => PixelFormat::Gray8,
            23 => PixelFormat::Nv12,
            26 => PixelFormat::Rgba,
            28 => PixelFormat::Bgra,
            _ => PixelFormat::Other(v),
        }
    }
}

/// Decoding an `AVPixelFormat` value and encoding it again gives back the value.
pub proof fn lemma_pix_fmt_round_trip(v: i32)
    ensures
        spec_pix_fmt_to_av(spec_pix_fmt_from_av(v)) == v,
{
}

/// An audio sample layout.
#[derive(Clone, Copy, Debug, PartialEq, Eq, Structural)]
pub enum SampleFormat {
    /// Unsigned 8-bit, interleaved.
    U8,
    /// Signed 16-bit, interleaved.
    S16,
    /// Signed 32-bit, interleaved.
    S32,
    /// 32-bit float, interleaved.
    Flt,
    /// 64-bit float, interleaved.
    Dbl,
    /// Signed 16-bit, planar.
    S16p,
    /// Signed 32-bit, planar.
    S32p,
    /// 32-bit float, planar.
    Fltp,
    /// 64-bit float, planar.
    Dblp,
    /// Any other `AVSampleFormat`, by value.
    Other(i32),
}

/// The `AVSampleFormat` value of `f`.
pub open spec fn spec_sample_fmt_to_av(f: SampleFormat) -> i32 {
    match f {
        SampleFormat::U8 => 0,
        SampleFormat::S16 => 1,
        SampleFormat::S32 => 2,
        SampleFormat::Flt => 3,
        SampleFormat::Dbl => 4,
        SampleFormat::S16p => 6,
        SampleFormat::S32p => 7,
        SampleFormat::Fltp => 8,
        SampleFormat::Dblp => 9,
        SampleFormat::Other(v) => v,
    }
}

/// The [`SampleFormat`] named by `AVSampleFormat` value `v`.
pub open spec fn spec_sample_fmt_from_av(v: i32) -> SampleFormat {
    if v == 0 {
        SampleFormat::U8
    } else if v == 1 {
        SampleFormat::S16
    } else if v == 2 {
        SampleFormat::S32
    } else if v == 3 {
        SampleFormat::Flt
    } else if v == 4 {
        SampleFormat::Dbl
    } else if v == 6 {
        SampleFormat::S16p
    } else if v == 7 {
        SampleFormat::S32p
    } else if v == 8 {
        SampleFormat::Fltp
    } else if v == 9 {
        SampleFormat::Dblp
    } else {
        SampleFormat::Other(v)
    }
}

impl SampleFormat {
    /// The `AVSampleFormat` value.
    pub fn to_av(self) -> (v: i32)
        ensures
            v == spec_sample_fmt_to_av(self),
    {
        match self {
            SampleFormat::U8 => 0,
            SampleFormat::S16 => 1,
            SampleFormat::S32 => 2,
            SampleFormat::Flt => 3,
            SampleFormat::Dbl => 4,
            SampleFormat::S16p => 6,
            SampleFormat::S32p => 7,
            SampleFormat::Fltp => 8,
            SampleFormat::Dblp => 9,
            SampleFormat::Other(v) => v,
        }
    }

    /// The format named by an `AVSampleFormat` value; unknown values become
    /// [`Other`](Self::Other).
    pub fn from_av(v: i32) -> (f: SampleFormat)
        ensures
            f == spec_sample_fmt_from_av(v),
    {
        match v {
            0 => SampleFormat::U8,
            1 => SampleFormat::S16,
            2 => SampleFormat::S32,
            3 => SampleFormat::Flt,
            4 => SampleFormat::Dbl,
            6 => SampleFormat::S16p,
            7 => SampleFormat::S32p,
            8 => SampleFormat::Fltp,
            9 => SampleFormat::Dblp,
            _ => SampleFormat::Other(v),
        }
    }
}

/// Decoding an `AVSampleFormat` value and encoding it again gives back the value.
pub proof fn lemma_sample_fmt_round_trip(v: i32)
    ensures
        spec_sample_fmt_to_av(spec_sample_fmt_from_av(v)) == v,
{
}

/// The media kind of a stream.
#[derive(Clone, Copy, Debug, PartialEq, Eq, Structural)]
pub enum StreamKind {
    /// Video.
    Video,
    /// Audio.
    Audio,
    /// Opaque data.
    Data,
    /// Subtitles.
    Subtitle,
    /// Attachments (fonts, cover art).
    Attachment,
    /// Anything else.
    Unknown,
}

/// The `AVMediaType` value of `k`.
pub open spec fn spec_kind_to_av(k: StreamKind) -> i32 {
    match k {
        StreamKind::Unknown => -1i32,
        StreamKind::Video => 0,
        StreamKind::Audio => 1,
        StreamKind::Data => 2,
        StreamKind::Subtitle => 3,
        StreamKind::Attachment => 4,
    }
}

impl StreamKind {
    /// The `AVMediaType` value.
    pub fn to_av(self) -> (v: i32)
        ensures
            v == spec_kind_to_av(self),
    {
        match self {
            StreamKind::Unknown => -1,
            StreamKind::Video => 0,
            StreamKind::Audio => 1,
            StreamKind::Data => 2,
            StreamKind::Subtitle => 3,
            StreamKind::Attachment => 4,
        }
    }

    /// The kind named by an `AVMediaType` value (`Unknown` for anything unrecognised).
    pub fn from_av(v: i32) -> (k: StreamKind)
        ensures
            v == spec_kind_to_av(k) || (k == StreamKind::Unknown && !(0 <= v <= 4)),
            0 <= v <= 4 ==> spec_kind_to_av(k) == v,
    {
        match v {
            0 => StreamKind::Video,
            1 => StreamKind::Audio,
            2 => StreamKind::Data,
            3 => StreamKind::Subtitle,
            4 => StreamKind::Attachment,
            _ => StreamKind::Unknown,
        }
    }
}

/// A video codec the library can encode to.
#[derive(Clone, Copy, Debug, PartialEq, Eq, Structural)]
pub enum VideoCodec {
    /// H.264 / AVC (libx264).
    H264,
    /// H.265 / HEVC (libx265).
    H265,
    /// VP9 (libvpx).
    Vp9,
    /// AV1 (libsvtav1).
    Av1,
    /// MPEG-4 Part 2.
    Mpeg4,
}

/// The `AVCodecID` of a video codec.
pub open spec fn spec_video_codec_id(c: VideoCodec) -> i32 {
    match c {
        VideoCodec::Mpeg4 => 12,
        VideoCodec::H264 => 27,
        VideoCodec::Vp9 => 167,
        VideoCodec::H265 => 173,
        VideoCodec::Av1 => 225,
    }
}

impl VideoCodec {
    /// The name of the FFmpeg encoder used for this codec.
    pub fn encoder_name(self) -> (name: &'static str)
        ensures
            self == VideoCodec::H264 ==> name@ == "libx264"@,
            self == VideoCodec::H265 ==> name@ == "libx265"@,
            self == VideoCodec::Vp9 ==> name@ == "libvpx-vp9"@,
            self == VideoCodec::Av1 ==> name@ == "libsvtav1"@,
            self == VideoCodec::Mpeg4 ==> name@ == "mpeg4"@,
    {
        match self {
            VideoCodec::H264 => "libx264",
            VideoCodec::H265 => "libx265",
            VideoCodec::Vp9 => "libvpx-vp9",
            VideoCodec::Av1 => "libsvtav1",
            VideoCodec::Mpeg4 => "mpeg4",
        }
    }

    /// The `AVCodecID` of this codec.
    pub fn codec_id(self) -> (id: i32)
        ensures
            id == spec_video_codec_id(self),
    {
        match self {
            VideoCodec::Mpeg4 => 12,
            VideoCodec::H264 => 27,
            VideoCodec::Vp9 => 167,
            VideoCodec::H265 => 173,
            VideoCodec::Av1 => 225,
        }
    }

    /// The codec with `AVCodecID` `id`, if it is one of the supported video codecs.
    pub fn from_codec_id(id: i32) -> (c: Option<VideoCodec>)
        ensures
            c matches Some(v) ==> spec_video_codec_id(v) == id,
            c is None ==> forall|v: VideoCodec| spec_video_codec_id(v) != id,
    {
        match id {
            12 => Some(VideoCodec::Mpeg4),
            27 => Some(VideoCodec::H264),
            167 => Some(VideoCodec::Vp9),
            173 => Some(VideoCodec::H265),
            225 => Some(VideoCodec::Av1),
            _ => None,
        }
    }

    /// `true` for the codecs configured through x264/x265 presets and profiles.
    pub fn takes_x26x_options(self) -> (b: bool)
        ensures
            b == (self == VideoCodec::H264 || self == VideoCodec::H265),
    {
        match self {
            VideoCodec::H264 | VideoCodec::H265 => true,
            _ => false,
        }
    }
}

/// An audio codec the library can encode to.
#[derive(Clone, Copy, Debug, PartialEq, Eq, Structural)]
pub enum AudioCodec {
    /// AAC.
    Aac,
    /// MP3 (libmp3lame).
    Mp3,
    /// Opus (libopus).
    Opus,
    /// Vorbis (libvorbis).
    Vorbis,
    /// FLAC.
    Flac,
    /// Signed 16-bit little-endian PCM.
    PcmS16le,
}

/// The `AVCodecID` of an audio codec.
pub open spec fn spec_audio_codec_id(c: AudioCodec) -> i32 {
    match c {
        AudioCodec::PcmS16le => 65536,
        AudioCodec::Mp3 => 86017,
        AudioCodec::Aac => 86018,
        AudioCodec::Vorbis => 86021,
        AudioCodec::Flac => 86028,
        AudioCodec::Opus => 86076,
    }
}

impl AudioCodec {
    /// The name of the FFmpeg encoder used for this codec.
    pub fn encoder_name(self) -> (name: &'static str)
        ensures
            self == AudioCodec::Aac ==> name@ == "aac"@,
            self == AudioCodec::Mp3 ==> name@ == "libmp3lame"@,
            self == AudioCodec::Opus ==> name@ == "libopus"@,
            self == AudioCodec::Vorbis ==> name@ == "libvorbis"@,
            self == AudioCodec::Flac ==> name@ == "flac"@,
            self == AudioCodec::PcmS16le ==> name@ == "pcm_s16le"@,
    {
        match self {
            AudioCodec::Aac => "aac",
            AudioCodec::Mp3 => "libmp3lame",
            AudioCodec::Opus => "libopus",
            AudioCodec::Vorbis => "libvorbis",
            AudioCodec::Flac => "flac",
            AudioCodec::PcmS16le => "pcm_s16le",
        }
    }

    /// The `AVCodecID` of this codec.
    pub fn codec_id(self) -> (id: i32)
        ensures
            id == spec_audio_codec_id(self),
    {
        match self {
            AudioCodec::PcmS16le => 65536,
            AudioCodec::Mp3 => 86017,
            AudioCodec::Aac => 86018,
            AudioCodec::Vorbis => 86021,
            AudioCodec::Flac => 86028,
            AudioCodec::Opus => 86076,
        }
    }

    /// The codec with `AVCodecID` `id`, if it is one of the supported audio codecs.
    pub fn from_codec_id(id: i32) -> (c: Option<AudioCodec>)
        ensures
            c matches Some(a) ==> spec_audio_codec_id(a) == id,
            c is None ==> forall|a: AudioCodec| spec_audio_codec_id(a) != id,
    {
        match id {
            65536 => Some(AudioCodec::PcmS16le),
            86017 => Some(AudioCodec::Mp3),
            86018 => Some(AudioCodec::Aac),
            86021 => Some(AudioCodec::Vorbis),
            86028 => Some(AudioCodec::Flac),
            86076 => Some(AudioCodec::Opus),
            _ => None,
        }
    }
}

/// An audio sample rate.
#[derive(Clone, Copy, Debug, PartialEq, Eq, Structural)]
pub enum SampleRate {
    /// 44.1 kHz.
    Hz44100,
    /// 48 kHz.
    Hz48000,
    /// Any other rate, in Hz.
    Hz(i32),
}

/// The rate of `r` in Hz.
pub open spec fn spec_hz(r: SampleRate) -> i32 {
    match r {
        SampleRate::Hz44100 => 44100,
        SampleRate::Hz48000 => 48000,
        SampleRate::Hz(v) => v,
    }
}

impl SampleRate {
    /// The rate in Hz.
    pub fn hz(self) -> (v: i32)
        ensures
            v == spec_hz(self),
    {
        match self {
            SampleRate::Hz44100 => 44100,
            SampleRate::Hz48000 => 48000,
            SampleRate::Hz(v) => v,
        }
    }
}

/// A channel layout in FFmpeg's native order: a channel count and the `AV_CH_*` mask of the
/// speaker positions present (`0` when the order is unspecified).
#[derive(Clone, Copy, Debug, PartialEq, Eq, Structural)]
pub struct ChannelLayout {
    /// Number of channels.
    pub nb_channels: i32,
    /// Bitmask of speaker positions.
    pub mask: u64,
}

impl ChannelLayout {
    /// The number of channels.
    pub fn count(&self) -> (n: i32)
        ensures
            n == self.nb_channels,
    {
        self.nb_channels
    }
}

/// A common channel configuration.
#[derive(Clone, Copy, Debug, PartialEq, Eq, Structural)]
pub enum Channels {
    /// One channel (front centre).
    Mono,
    /// Front left and right.
    Stereo,
    /// 5.1 surround.
    Surround51,
}

/// The layout of a channel configuration.
pub open spec fn spec_channels_layout(c: Channels) -> ChannelLayout {
    match c {
        Channels::Mono => ChannelLayout { nb_channels: 1, mask: 0x4 },
        Channels::Stereo => ChannelLayout { nb_channels: 2, mask: 0x3 },
        Channels::Surround51 => ChannelLayout { nb_channels: 6, mask: 0x60f },
    }
}

impl Channels {
    /// The native-order layout for this configuration.
    pub fn to_layout(self) -> (l: ChannelLayout)
        ensures
            l == spec_channels_layout(self),
    {
        match self {
            Channels::Mono => ChannelLayout { nb_channels: 1, mask: 0x4 },
            Channels::Stereo => ChannelLayout { nb_channels: 2, mask: 0x3 },
            Channels::Surround51 => ChannelLayout { nb_channels: 6, mask: 0x60f },
        }
    }
}

/// x264/x265 speed/quality presets.
#[derive(Clone, Copy, Debug, PartialEq, Eq, Structural)]
pub enum H264Preset {
    Ultrafast,
    Superfast,
    Veryfast,
    Faster,
    Fast,
    Medium,
    Slow,
    Slower,
    Veryslow,
}

impl H264Preset {
    /// The preset's option value.
    pub fn as_str(self) -> (s: &'static str)
        ensures
            self == H264Preset::Ultrafast ==> s@ == "ultrafast"@,
            self == H264Preset::Superfast ==> s@ == "superfast"@,
            self == H264Preset::Veryfast ==> s@ == "veryfast"@,
            self == H264Preset::Faster ==> s@ == "faster"@,
            self == H264Preset::Fast ==> s@ == "fast"@,
            self == H264Preset::Medium ==> s@ == "medium"@,
            self == H264Preset::Slow ==> s@ == "slow"@,
            self == H264Preset::Slower ==> s@ == "slower"@,
            self == H264Preset::Veryslow ==> s@ == "veryslow"@,
    {
        match self {
            H264Preset::Ultrafast => "ultrafast",
            H264Preset::Superfast => "superfast",
            H264Preset::Veryfast => "veryfast",
            H264Preset::Faster => "faster",
            H264Preset::Fast => "fast",
            H264Preset::Medium => "medium",
            H264Preset::Slow => "slow",
            H264Preset::Slower => "slower",
            H264Preset::Veryslow => "veryslow",
        }
    }
}

/// x264/x265 profiles.
#[derive(Clone, Copy, Debug, PartialEq, Eq, Structural)]
pub enum H264Profile {
    Baseline,
    Main,
    High,
}

impl H264Profile {
    /// The profile's option value.
    pub fn as_str(self) -> (s: &'static str)
        ensures
            self == H264Profile::Baseline ==> s@ == "baseline"@,
            self == H264Profile::Main ==> s@ == "main"@,
            self == H264Profile::High ==> s@ == "high"@,
    {
        match self {
            H264Profile::Baseline => "baseline",
            H264Profile::Main => "main",
            H264Profile::High => "high",
        }
    }
}

} // verus!
