//! Media-processing logic: FFmpeg's error codes, timestamps and time bases, packets and
//! frames, filter descriptions, encoder/decoder configuration, the demuxer's and muxer's stream
//! bookkeeping, stream probing, the sampling planner behind frame extraction, the decisions of
//! the transcode pipeline, and log levels.

pub mod codec;
pub mod error;
pub mod packet;
pub mod prelude;
pub mod probe;
pub mod extract;
pub mod filter;
pub mod format;
pub mod frame;
pub mod log;
pub mod time;
pub mod transcode;
pub mod rational;
pub mod text;
pub mod types;
