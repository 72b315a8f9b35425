//! Output stream configuration for a transcode: how to encode the video and audio streams.

use vstd::prelude::*;
use crate::codec::encoder::{
    AudioEncoderBuilder, AudioEncoderOptions, VideoEncoderBuilder, VideoEncoderOptions,
};
use crate::error::{Error, Result};
use crate::rational::{Bitrate, Framerate};
use crate::types::{AudioCodec, Channels, H264Preset, H264Profile, SampleFormat, SampleRate, VideoCodec};

verus! {

/// How to encode the output video stream. Anything left unset is inherited from the input
/// (resolution, frame rate, pixel format).
#[derive(Clone, Copy, Debug)]
pub struct VideoConfig {
    pub codec: VideoCodec,
    /// Output `(width, height)`; when it differs from the input a scale filter is inserted.
    pub resolution: Option<(u32, u32)>,
    pub bitrate: Option<Bitrate>,
    pub framerate: Option<Framerate>,
    pub preset: Option<H264Preset>,
    pub profile: Option<H264Profile>,
}

/// The options a [`VideoConfigBuilder`] has collected.
#[derive(Clone, Copy, Debug)]
pub struct VideoConfigOptions {
    pub codec: Option<VideoCodec>,
    pub resolution: Option<(u32, u32)>,
    pub bitrate: Option<Bitrate>,
    pub framerate: Option<Framerate>,
    pub preset: Option<H264Preset>,
    pub profile: Option<H264Profile>,
}

/// Builder for [`VideoConfig`].
#[derive(Clone, Copy, Debug)]
pub struct VideoConfigBuilder {
    opts: VideoConfigOptions,
}

impl View for VideoConfigBuilder {
    type V = VideoConfigOptions;

    closed spec fn view(&self) -> VideoConfigOptions {
        self.opts
    }
}

impl Default for VideoConfigBuilder {
    /// Nothing set.
    fn default() -> (b: Self)
        ensures
            b@ == (VideoConfigOptions {
                codec: None,
                resolution: None,
                bitrate: None,
                framerate: None,
                preset: None,
                profile: None,
            }),
    {
        VideoConfigBuilder {
            opts: VideoConfigOptions {
                codec: None,
                resolution: None,
                bitrate: None,
                framerate: None,
                preset: None,
                profile: None,
            },
        }
    }
}

/// The encoder options after a [`VideoConfig`] is applied: its bit rate, preset and profile
/// replace the builder's where set. (Its codec, resolution and frame rate are resolved by the
/// transcode itself, before the encoder builder is configured.)
pub open spec fn spec_apply_video(c: VideoConfig, o: VideoEncoderOptions) -> VideoEncoderOptions {
    VideoEncoderOptions {
        bitrate: if c.bitrate is Some { c.bitrate } else { o.bitrate },
        preset: if c.preset is Some { c.preset } else { o.preset },
        profile: if c.profile is Some { c.profile } else { o.profile },
        ..o
    }
}

impl VideoConfig {
    /// Start configuring video output.
    pub fn builder() -> (b: VideoConfigBuilder)
        ensures
            b@.codec is None && b@.resolution is None && b@.bitrate is None && b@.framerate is None
                && b@.preset is None && b@.profile is None,
    {
        VideoConfigBuilder::default()
    }

    /// Apply the encoding options this configuration sets (bit rate, preset, profile) to an
    /// encoder builder.
    pub fn apply_to(&self, builder: VideoEncoderBuilder) -> (b: VideoEncoderBuilder)
        ensures
            b@ == spec_apply_video(*self, builder@),
    {
        let mut b = builder;
        if let Some(rate) = self.bitrate {
            b = b.bitrate(rate);
        }
        if let Some(p) = self.preset {
            b = b.preset(p);
        }
        if let Some(p) = self.profile {
            b = b.profile(p);
        }
        b
    }
}

impl VideoConfigBuilder {
    /// The video codec (required).
    pub fn codec(self, codec: VideoCodec) -> (b: Self)
        ensures
            b@ == (VideoConfigOptions { codec: Some(codec), ..self@ }),
    {
        VideoConfigBuilder { opts: VideoConfigOptions { codec: Some(codec), ..self.opts } }
    }

    /// Output resolution; if it differs from the input a scale filter is inserted.
    pub fn resolution(self, width: u32, height: u32) -> (b: Self)
        ensures
            b@ == (VideoConfigOptions { resolution: Some((width, height)), ..self@ }),
    {
        VideoConfigBuilder { opts: VideoConfigOptions { resolution: Some((width, height)), ..self.opts } }
    }

    /// Target bit rate.
    pub fn bitrate(self, bitrate: Bitrate) -> (b: Self)
        ensures
            b@ == (VideoConfigOptions { bitrate: Some(bitrate), ..self@ }),
    {
        VideoConfigBuilder { opts: VideoConfigOptions { bitrate: Some(bitrate), ..self.opts } }
    }

    /// Output frame rate.
    pub fn framerate(self, framerate: Framerate) -> (b: Self)
        ensures
            b@ == (VideoConfigOptions { framerate: Some(framerate), ..self@ }),
    {
        VideoConfigBuilder { opts: VideoConfigOptions { framerate: Some(framerate), ..self.opts } }
    }

    /// Speed/quality preset (H.264/H.265).
    pub fn preset(self, preset: H264Preset) -> (b: Self)
        ensures
            b@ == (VideoConfigOptions { preset: Some(preset), ..self@ }),
    {
        VideoConfigBuilder { opts: VideoConfigOptions { preset: Some(preset), ..self.opts } }
    }

    /// Codec profile (H.264/H.265).
    pub fn profile(self, profile: H264Profile) -> (b: Self)
        ensures
            b@ == (VideoConfigOptions { profile: Some(profile), ..self@ }),
    {
        VideoConfigBuilder { opts: VideoConfigOptions { profile: Some(profile), ..self.opts } }
    }

    /// Validate and produce the [`VideoConfig`]: a codec is required.
    pub fn build(self) -> (r: Result<VideoConfig>)
        ensures
            self@.codec is None ==> (r matches Err(Error::InvalidConfig(m)) && m@
                == "video config requires a codec"@),
            self@.codec matches Some(codec) ==> r == Ok::<VideoConfig, Error>(
                VideoConfig {
                    codec,
                    resolution: self@.resolution,
                    bitrate: self@.bitrate,
                    framerate: self@.framerate,
                    preset: self@.preset,
                    profile: self@.profile,
                },
            ),
    {
        proof {
            reveal_strlit("video config requires a codec");
        }
        let o = self.opts;
        match o.codec {
            Some(codec) => Ok(
                VideoConfig {
                    codec,
                    resolution: o.resolution,
                    bitrate: o.bitrate,
                    framerate: o.framerate,
                    preset: o.preset,
                    profile: o.profile,
                },
            ),
            None => Err(Error::InvalidConfig("video config requires a codec")),
        }
    }
}

/// How to encode the output audio stream. Anything left unset is inherited from the input
/// (sample rate, channel layout); the sample format defaults to the encoder's preference.
#[derive(Clone, Copy, Debug, PartialEq, Eq, Structural)]
pub struct AudioConfig {
    pub codec: AudioCodec,
    pub bitrate: Option<Bitrate>,
    pub sample_rate: Option<SampleRate>,
    pub channels: Option<Channels>,
    pub sample_format: Option<SampleFormat>,
}

/// The options an [`AudioConfigBuilder`] has collected.
#[derive(Clone, Copy, Debug, PartialEq, Eq, Structural)]
pub struct AudioConfigOptions {
    pub codec: Option<AudioCodec>,
    pub bitrate: Option<Bitrate>,
    pub sample_rate: Option<SampleRate>,
    pub channels: Option<Channels>,
    pub sample_format: Option<SampleFormat>,
}

/// Builder for [`AudioConfig`].
#[derive(Clone, Copy, Debug)]
pub struct AudioConfigBuilder {
    opts: AudioConfigOptions,
}

impl View for AudioConfigBuilder {
    type V = AudioConfigOptions;

    closed spec fn view(&self) -> AudioConfigOptions {
        self.opts
    }
}

impl Default for AudioConfigBuilder {
    /// Nothing set.
    fn default() -> (b: Self)
        ensures
            b@ == (AudioConfigOptions {
                codec: None,
                bitrate: None,
                sample_rate: None,
                channels: None,
                sample_format: None,
            }),
    {
        AudioConfigBuilder {
            opts: AudioConfigOptions {
                codec: None,
                bitrate: None,
                sample_rate: None,
                channels: None,
                sample_format: None,
            },
        }
    }
}

/// The encoder options after an [`AudioConfig`] is applied: its bit rate, sample rate,
/// channel configuration and sample format replace the builder's where set. (Its codec is
/// resolved by the transcode before the encoder builder is configured.)
pub open spec fn spec_apply_audio(c: AudioConfig, o: AudioEncoderOptions) -> AudioEncoderOptions {
    AudioEncoderOptions {
        bitrate: if c.bitrate is Some { c.bitrate } else { o.bitrate },
        sample_rate: if c.sample_rate is Some { c.sample_rate } else { o.sample_rate },
        channels: if c.channels is Some { c.channels } else { o.channels },
        sample_format: if c.sample_format is Some { c.sample_format } else { o.sample_format },
        ..o
    }
}

/// Applying an audio configuration overrides exactly what it sets: its bit rate, sample rate,
/// channels and sample format each replace the builder's when set and leave it alone when
/// not; the codec, inherited layout and global-header flag are untouched.
pub proof fn lemma_audio_config_overrides(c: AudioConfig, o: AudioEncoderOptions)
    ensures
        c.bitrate is Some ==> spec_apply_audio(c, o).bitrate == c.bitrate,
        c.bitrate is None ==> spec_apply_audio(c, o).bitrate == o.bitrate,
        c.sample_rate is Some ==> spec_apply_audio(c, o).sample_rate == c.sample_rate,
        c.sample_rate is None ==> spec_apply_audio(c, o).sample_rate == o.sample_rate,
        c.channels is Some ==> spec_apply_audio(c, o).channels == c.channels,
        c.channels is None ==> spec_apply_audio(c, o).channels == o.channels,
        c.sample_format is Some ==> spec_apply_audio(c, o).sample_format == c.sample_format,
        c.sample_format is None ==> spec_apply_audio(c, o).sample_format == o.sample_format,
        spec_apply_audio(c, o).codec == o.codec,
        spec_apply_audio(c, o).layout == o.layout,
        spec_apply_audio(c, o).global_header == o.global_header,
{
}

/// Applying a video configuration overrides exactly what it sets: its bit rate, preset and
/// profile each replace the builder's when set; everything else is untouched.
pub proof fn lemma_video_config_overrides(c: VideoConfig, o: VideoEncoderOptions)
    ensures
        c.bitrate is Some ==> spec_apply_video(c, o).bitrate == c.bitrate,
        c.bitrate is None ==> spec_apply_video(c, o).bitrate == o.bitrate,
        c.preset is Some ==> spec_apply_video(c, o).preset == c.preset,
        c.preset is None ==> spec_apply_video(c, o).preset == o.preset,
        c.profile is Some ==> spec_apply_video(c, o).profile == c.profile,
        c.profile is None ==> spec_apply_video(c, o).profile == o.profile,
        spec_apply_video(c, o).codec == o.codec,
        spec_apply_video(c, o).width == o.width,
        spec_apply_video(c, o).height == o.height,
        spec_apply_video(c, o).framerate == o.framerate,
        spec_apply_video(c, o).time_base == o.time_base,
{
}

impl AudioConfig {
    /// Start configuring audio output.
    pub fn builder() -> (b: AudioConfigBuilder)
        ensures
            b@.codec is None && b@.bitrate is None && b@.sample_rate is None && b@.channels is None
                && b@.sample_format is None,
    {
        AudioConfigBuilder::default()
    }

    /// Apply the encoding options this configuration sets (bit rate, sample rate, channels,
    /// sample format) to an encoder builder.
    pub fn apply_to(&self, builder: AudioEncoderBuilder) -> (b: AudioEncoderBuilder)
        ensures
            b@ == spec_apply_audio(*self, builder@),
            self.sample_rate is Some ==> b@.sample_rate == self.sample_rate,
            self.bitrate is Some ==> b@.bitrate == self.bitrate,
            self.channels is Some ==> b@.channels == self.channels,
            self.sample_format is Some ==> b@.sample_format == self.sample_format,
    {
        let mut b = builder;
        if let Some(rate) = self.bitrate {
            b = b.bitrate(rate);
        }
        if let Some(rate) = self.sample_rate {
            b = b.sample_rate(rate);
        }
        if let Some(ch) = self.channels {
            b = b.channels(ch);
        }
        if let Some(f) = self.sample_format {
            b = b.sample_format(f);
        }
        b
    }
}

impl AudioConfigBuilder {
    /// The audio codec (required).
    pub fn codec(self, codec: AudioCodec) -> (b: Self)
        ensures
            b@ == (AudioConfigOptions { codec: Some(codec), ..self@ }),
    {
        AudioConfigBuilder { opts: AudioConfigOptions { codec: Some(codec), ..self.opts } }
    }

    /// Target bit rate (ignored by lossless codecs like FLAC).
    pub fn bitrate(self, bitrate: Bitrate) -> (b: Self)
        ensures
            b@ == (AudioConfigOptions { bitrate: Some(bitrate), ..self@ }),
    {
        AudioConfigBuilder { opts: AudioConfigOptions { bitrate: Some(bitrate), ..self.opts } }
    }

    /// Output sample rate (defaults to the input's).
    pub fn sample_rate(self, sample_rate: SampleRate) -> (b: Self)
        ensures
            b@ == (AudioConfigOptions { sample_rate: Some(sample_rate), ..self@ }),
    {
        AudioConfigBuilder { opts: AudioConfigOptions { sample_rate: Some(sample_rate), ..self.opts } }
    }

    /// Output channel configuration (defaults to the input's).
    pub fn channels(self, channels: Channels) -> (b: Self)
        ensures
            b@ == (AudioConfigOptions { channels: Some(channels), ..self@ }),
    {
        AudioConfigBuilder { opts: AudioConfigOptions { channels: Some(channels), ..self.opts } }
    }

    /// Sample format (defaults to the encoder's preferred format).
    pub fn sample_format(self, sample_format: SampleFormat) -> (b: Self)
        ensures
            b@ == (AudioConfigOptions { sample_format: Some(sample_format), ..self@ }),
    {
        AudioConfigBuilder { opts: AudioConfigOptions { sample_format: Some(sample_format), ..self.opts } }
    }

    /// Validate and produce the [`AudioConfig`]: a codec is required.
    pub fn build(self) -> (r: Result<AudioConfig>)
        ensures
            self@.codec is None ==> (r matches Err(Error::InvalidConfig(m)) && m@
                == "audio config requires a codec"@),
            self@.codec matches Some(codec) ==> r == Ok::<AudioConfig, Error>(
                AudioConfig {
                    codec,
                    bitrate: self@.bitrate,
                    sample_rate: self@.sample_rate,
                    channels: self@.channels,
                    sample_format: self@.sample_format,
                },
            ),
    {
        proof {
            reveal_strlit("audio config requires a codec");
        }
        let o = self.opts;
        match o.codec {
            Some(codec) => Ok(
                AudioConfig {
                    codec,
                    bitrate: o.bitrate,
                    sample_rate: o.sample_rate,
                    channels: o.channels,
                    sample_format: o.sample_format,
                },
            ),
            None => Err(Error::InvalidConfig("audio config requires a codec")),
        }
    }
}

} // verus!
