//! Audio resampling configuration: conversions between sample formats, sample rates and
//! channel layouts.

use vstd::prelude::*;
use crate::error::{Error, Result};
use crate::types::{ChannelLayout, Channels, SampleFormat, SampleRate, spec_channels_layout, spec_hz, spec_sample_fmt_to_av};

verus! {

/// One fixed (input → output) audio conversion: sample formats (FFmpeg numbers), rates in
/// Hz and channel layouts.
#[derive(Clone, Copy, Debug, PartialEq, Eq, Structural)]
pub struct ResampleConfig {
    pub in_fmt: i32,
    pub in_rate: i32,
    pub in_layout: ChannelLayout,
    pub out_fmt: i32,
    pub out_rate: i32,
    pub out_layout: ChannelLayout,
}

/// A configured audio resampler for one fixed (input → output) format.
#[derive(Clone, Copy, Debug)]
pub struct Resampler {
    config: ResampleConfig,
}

impl View for Resampler {
    type V = ResampleConfig;

    closed spec fn view(&self) -> ResampleConfig {
        self.config
    }
}

/// A stream format: sample format, rate and channels.
pub type AudioFormat = (SampleFormat, SampleRate, Channels);

/// Builder for a [`Resampler`].
#[derive(Clone, Copy, Debug)]
pub struct ResamplerBuilder {
    input: Option<AudioFormat>,
    output: Option<AudioFormat>,
}

impl View for ResamplerBuilder {
    type V = (Option<AudioFormat>, Option<AudioFormat>);

    closed spec fn view(&self) -> (Option<AudioFormat>, Option<AudioFormat>) {
        (self.input, self.output)
    }
}

/// The conversion between two stream formats.
pub open spec fn spec_resample_config(input: AudioFormat, output: AudioFormat) -> ResampleConfig {
    ResampleConfig {
        in_fmt: spec_sample_fmt_to_av(input.0),
        in_rate: spec_hz(input.1),
        in_layout: spec_channels_layout(input.2),
        out_fmt: spec_sample_fmt_to_av(output.0),
        out_rate: spec_hz(output.1),
        out_layout: spec_channels_layout(output.2),
    }
}

impl Resampler {
    /// Start configuring a resampler.
    pub fn builder() -> (b: ResamplerBuilder)
        ensures
            b@ == (None::<AudioFormat>, None::<AudioFormat>),
    {
        ResamplerBuilder { input: None, output: None }
    }

    /// The conversion this resampler performs.
    pub fn config(&self) -> (c: ResampleConfig)
        ensures
            c == self@,
    {
        self.config
    }
}

impl ResamplerBuilder {
    /// The format of the frames you'll feed in (required).
    pub fn input_format(self, fmt: SampleFormat, rate: SampleRate, channels: Channels) -> (b: Self)
        ensures
            b@ == (Some((fmt, rate, channels)), self@.1),
    {
        ResamplerBuilder { input: Some((fmt, rate, channels)), output: self.output }
    }

    /// The format to convert to (required).
    pub fn output_format(self, fmt: SampleFormat, rate: SampleRate, channels: Channels) -> (b: Self)
        ensures
            b@ == (self@.0, Some((fmt, rate, channels))),
    {
        ResamplerBuilder { input: self.input, output: Some((fmt, rate, channels)) }
    }

    /// Validate and build the resampler: both formats are required.
    pub fn build(self) -> (r: Result<Resampler>)
        ensures
            self@.0 is None ==> (r matches Err(Error::InvalidConfig(m)) && m@
                == "resampler requires an input format"@),
            self@.0 is Some && self@.1 is None ==> (r matches Err(Error::InvalidConfig(m)) && m@
                == "resampler requires an output format"@),
            self@.0 is Some && self@.1 is Some ==> (r matches Ok(res) && res@
                == spec_resample_config(self@.0.unwrap(), self@.1.unwrap())),
    {
        proof {
            reveal_strlit("resampler requires an input format");
            reveal_strlit("resampler requires an output format");
        }
        let (in_fmt, in_rate, in_ch) = match self.input {
            Some(i) => i,
            None => return Err(Error::InvalidConfig("resampler requires an input format")),
        };
        let (out_fmt, out_rate, out_ch) = match self.output {
            Some(o) => o,
            None => return Err(Error::InvalidConfig("resampler requires an output format")),
        };
        Ok(
            Resampler {
                config: ResampleConfig {
                    in_fmt: in_fmt.to_av(),
                    in_rate: in_rate.hz(),
                    in_layout: in_ch.to_layout(),
                    out_fmt: out_fmt.to_av(),
                    out_rate: out_rate.hz(),
                    out_layout: out_ch.to_layout(),
                },
            },
        )
    }
}

} // verus!
