//! The one-liner `transcode(input).to(output)` form: a thin facade over
//! [`TranscoderBuilder`](super::TranscoderBuilder).

use vstd::prelude::*;
use crate::error::{Error, Result};
use crate::filter::{AudioFilterChain, VideoFilterChain};
use crate::time::Duration;
use super::{Transcoder, TranscoderBuilder};
use super::pipeline::TranscodeOptions;
use super::config::{AudioConfig, VideoConfig};

verus! {

/// A fluent one-liner transcode. Inherits codecs and geometry from the input and the output
/// container by default; its methods cover the common quick edits.
#[derive(Clone, Debug)]
pub struct TranscodeJob {
    builder: TranscoderBuilder,
}

impl View for TranscodeJob {
    type V = TranscoderBuilder;

    closed spec fn view(&self) -> TranscoderBuilder {
        self.builder
    }
}

/// Begin a one-liner transcode from `input`.
pub fn transcode(input: String) -> (j: TranscodeJob)
    ensures
        j@.input == Some(input),
        j@.output is None && j@.video is None && j@.audio is None && !j@.drop_video
            && !j@.drop_audio && j@.trim is None && j@.video_filter@.len() == 0
            && j@.audio_filter@.len() == 0,
{
    TranscodeJob { builder: TranscoderBuilder::default().input(input) }
}

/// Begin an audio-only transcode from `input`: [`transcode`] with the video dropped.
pub fn transcode_audio(input: String) -> (j: TranscodeJob)
    ensures
        j@.input == Some(input),
        j@.drop_video,
        j@.output is None && j@.video is None && j@.audio is None && !j@.drop_audio
            && j@.trim is None && j@.video_filter@.len() == 0 && j@.audio_filter@.len() == 0,
{
    transcode(input).drop_video()
}

impl TranscodeJob {
    /// Set the output file (required).
    pub fn to(self, output: String) -> (j: Self)
        ensures
            j@ == (TranscoderBuilder { output: Some(output), ..self@ }),
    {
        TranscodeJob { builder: self.builder.output(output) }
    }

    /// Drop the video stream.
    pub fn drop_video(self) -> (j: Self)
        ensures
            j@ == (TranscoderBuilder { drop_video: true, ..self@ }),
    {
        TranscodeJob { builder: self.builder.drop_video() }
    }

    /// Drop the audio stream.
    pub fn drop_audio(self) -> (j: Self)
        ensures
            j@ == (TranscoderBuilder { drop_audio: true, ..self@ }),
    {
        TranscodeJob { builder: self.builder.drop_audio() }
    }

    /// Keep only the time range `start..=end`.
    pub fn trim(self, start: Duration, end: Duration) -> (j: Self)
        ensures
            j@ == (TranscoderBuilder { trim: Some((start, end)), ..self@ }),
    {
        TranscodeJob { builder: self.builder.trim(start, end) }
    }

    /// Override video encoding settings.
    pub fn video(self, config: VideoConfig) -> (j: Self)
        ensures
            j@ == (TranscoderBuilder { video: Some(config), ..self@ }),
    {
        TranscodeJob { builder: self.builder.video(config) }
    }

    /// Apply a video filter chain.
    pub fn video_filter(self, filter: VideoFilterChain) -> (j: Self)
        ensures
            j@ == (TranscoderBuilder { video_filter: filter, ..self@ }),
    {
        TranscodeJob { builder: self.builder.video_filter(filter) }
    }

    /// Override audio encoding settings.
    pub fn audio(self, config: AudioConfig) -> (j: Self)
        ensures
            j@ == (TranscoderBuilder { audio: Some(config), ..self@ }),
    {
        TranscodeJob { builder: self.builder.audio(config) }
    }

    /// Apply an audio filter chain (forces the audio to be re-encoded).
    pub fn audio_filter(self, filter: AudioFilterChain) -> (j: Self)
        ensures
            j@ == (TranscoderBuilder { audio_filter: filter, ..self@ }),
    {
        TranscodeJob { builder: self.builder.audio_filter(filter) }
    }

    /// Validate the job into the [`Transcoder`] that runs it.
    pub fn build(self) -> (r: Result<Transcoder>)
        ensures
            self@.input is None ==> (r matches Err(Error::InvalidConfig(m)) && m@
                == "transcoder requires an input"@),
            self@.input is Some && self@.output is None ==> (r matches Err(Error::InvalidConfig(m))
                && m@ == "transcoder requires an output"@),
            self@.input is Some && self@.output is Some ==> (r matches Ok(t) && t@ == (
            TranscodeOptions {
                input: self@.input.unwrap(),
                output: self@.output.unwrap(),
                video: self@.video,
                audio: self@.audio,
                drop_video: self@.drop_video,
                drop_audio: self@.drop_audio,
                trim: self@.trim,
                video_filter: self@.video_filter,
                audio_filter: self@.audio_filter,
            })),
    {
        self.builder.build()
    }
}

} // verus!
