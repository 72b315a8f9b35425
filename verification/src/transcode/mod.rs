//! Transcoding: the output stream configuration, the transcode builders, and the decisions of
//! the transcode pipeline.

use vstd::prelude::*;
use crate::error::{Error, Result};
use crate::filter::{AudioFilterChain, VideoFilterChain};
use crate::time::Duration;
use config::{AudioConfig, VideoConfig};
use pipeline::TranscodeOptions;

pub mod config;
pub mod oneliner;
pub mod pipeline;

verus! {

/// A configured transcode job: the options it runs with.
#[derive(Clone, Debug)]
pub struct Transcoder {
    opts: TranscodeOptions,
}

impl View for Transcoder {
    type V = TranscodeOptions;

    closed spec fn view(&self) -> TranscodeOptions {
        self.opts
    }
}

impl Transcoder {
    /// Start building a transcode.
    pub fn builder() -> (b: TranscoderBuilder)
        ensures
            b.input is None && b.output is None && b.video is None && b.audio is None
                && !b.drop_video && !b.drop_audio && b.trim is None && b.video_filter@.len() == 0
                && b.audio_filter@.len() == 0,
    {
        TranscoderBuilder::default()
    }

    /// The options the transcode runs with.
    pub fn options(&self) -> (o: &TranscodeOptions)
        ensures
            *o == self@,
    {
        &self.opts
    }
}

/// Builder for a [`Transcoder`].
#[derive(Clone, Debug)]
pub struct TranscoderBuilder {
    pub input: Option<String>,
    pub output: Option<String>,
    pub video: Option<VideoConfig>,
    pub audio: Option<AudioConfig>,
    pub drop_video: bool,
    pub drop_audio: bool,
    pub trim: Option<(Duration, Duration)>,
    pub video_filter: VideoFilterChain,
    pub audio_filter: AudioFilterChain,
}

impl Default for TranscoderBuilder {
    /// Nothing set, nothing dropped, no filters.
    fn default() -> (b: Self)
        ensures
            b.input is None && b.output is None && b.video is None && b.audio is None
                && !b.drop_video && !b.drop_audio && b.trim is None && b.video_filter@.len() == 0
                && b.audio_filter@.len() == 0,
    {
        TranscoderBuilder {
            input: None,
            output: None,
            video: None,
            audio: None,
            drop_video: false,
            drop_audio: false,
            trim: None,
            video_filter: VideoFilterChain::new(),
            audio_filter: AudioFilterChain::new(),
        }
    }
}

impl TranscoderBuilder {
    /// The input file (required).
    pub fn input(self, path: String) -> (b: Self)
        ensures
            b == (TranscoderBuilder { input: Some(path), ..self }),
    {
        TranscoderBuilder { input: Some(path), ..self }
    }

    /// The output file (required). The container is inferred from the extension.
    pub fn output(self, path: String) -> (b: Self)
        ensures
            b == (TranscoderBuilder { output: Some(path), ..self }),
    {
        TranscoderBuilder { output: Some(path), ..self }
    }

    /// How to encode the video stream. Omit to inherit the input's geometry with H.264.
    pub fn video(self, config: VideoConfig) -> (b: Self)
        ensures
            b == (TranscoderBuilder { video: Some(config), ..self }),
    {
        TranscoderBuilder { video: Some(config), ..self }
    }

    /// How to encode the audio stream. Omit to stream-copy the input audio (re-encoding only
    /// when the source codec can't go into the target container).
    pub fn audio(self, config: AudioConfig) -> (b: Self)
        ensures
            b == (TranscoderBuilder { audio: Some(config), ..self }),
    {
        TranscoderBuilder { audio: Some(config), ..self }
    }

    /// Drop the video stream from the output.
    pub fn drop_video(self) -> (b: Self)
        ensures
            b == (TranscoderBuilder { drop_video: true, ..self }),
    {
        TranscoderBuilder { drop_video: true, ..self }
    }

    /// Drop the audio stream from the output.
    pub fn drop_audio(self) -> (b: Self)
        ensures
            b == (TranscoderBuilder { drop_audio: true, ..self }),
    {
        TranscoderBuilder { drop_audio: true, ..self }
    }

    /// Keep only the time range `start..=end`, re-based to start at zero.
    pub fn trim(self, start: Duration, end: Duration) -> (b: Self)
        ensures
            b == (TranscoderBuilder { trim: Some((start, end)), ..self }),
    {
        TranscoderBuilder { trim: Some((start, end)), ..self }
    }

    /// Apply a video filter chain.
    pub fn video_filter(self, filter: VideoFilterChain) -> (b: Self)
        ensures
            b == (TranscoderBuilder { video_filter: filter, ..self }),
    {
        TranscoderBuilder { video_filter: filter, ..self }
    }

    /// Apply an audio filter chain. Setting one forces the audio stream to be re-encoded.
    pub fn audio_filter(self, filter: AudioFilterChain) -> (b: Self)
        ensures
            b == (TranscoderBuilder { audio_filter: filter, ..self }),
    {
        TranscoderBuilder { audio_filter: filter, ..self }
    }

    /// Validate and produce the [`Transcoder`]: an input and an output are required.
    pub fn build(self) -> (r: Result<Transcoder>)
        ensures
            self.input is None ==> (r matches Err(Error::InvalidConfig(m)) && m@
                == "transcoder requires an input"@),
            self.input is Some && self.output is None ==> (r matches Err(Error::InvalidConfig(m))
                && m@ == "transcoder requires an output"@),
            self.input is Some && self.output is Some ==> (r matches Ok(t) && t@ == (
            TranscodeOptions {
                input: self.input.unwrap(),
                output: self.output.unwrap(),
                video: self.video,
                audio: self.audio,
                drop_video: self.drop_video,
                drop_audio: self.drop_audio,
                trim: self.trim,
                video_filter: self.video_filter,
                audio_filter: self.audio_filter,
            })),
    {
        proof {
            reveal_strlit("transcoder requires an input");
            reveal_strlit("transcoder requires an output");
        }
        let input = match self.input {
            Some(i) => i,
            None => return Err(Error::InvalidConfig("transcoder requires an input")),
        };
        let output = match self.output {
            Some(o) => o,
            None => return Err(Error::InvalidConfig("transcoder requires an output")),
        };
        Ok(
            Transcoder {
                opts: TranscodeOptions {
                    input,
                    output,
                    video: self.video,
                    audio: self.audio,
                    drop_video: self.drop_video,
                    drop_audio: self.drop_audio,
                    trim: self.trim,
                    video_filter: self.video_filter,
                    audio_filter: self.audio_filter,
                },
            },
        )
    }
}

} // verus!
