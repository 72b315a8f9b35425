//! The one import most users need: `use media::prelude::*;`.

pub use crate::codec::decoder::{CodecParameters, Decoder};
pub use crate::codec::encoder::{AudioEncoder, Encoder, VideoEncoder};
pub use crate::codec::resampler::Resampler;
pub use crate::error::{Error, Result};
pub use crate::extract::frame::ExtractedFrame;
pub use crate::extract::report::ExtractReport;
pub use crate::extract::types::{ImageFormat, NamingScheme, Resolution};
pub use crate::filter::{AudioFilterChain, DenoiseLevel, VideoFilterChain};
pub use crate::format::reader::MediaReader;
pub use crate::format::writer::MediaWriter;
pub use crate::frame::Frame;
pub use crate::log::Level;
pub use crate::packet::Packet;
pub use crate::probe::{probe, MediaInfo, StreamInfo};
pub use crate::rational::{Bitrate, Framerate, Rational};
pub use crate::time::Duration;
pub use crate::transcode::config::{AudioConfig, VideoConfig};
pub use crate::transcode::oneliner::{transcode, transcode_audio};
pub use crate::transcode::Transcoder;
pub use crate::types::{
    AudioCodec, Channels, H264Preset, H264Profile, PixelFormat, SampleFormat, SampleRate, StreamKind, VideoCodec,
};
