//! Frame-level codecs: the send/receive protocol, decoders, video and audio encoders, and
//! resamplers.

pub mod decoder;
pub mod encoder;
pub mod receive;
pub mod resampler;
