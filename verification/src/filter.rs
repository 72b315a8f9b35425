//! Composable, typed audio and video filter descriptions.
//!
//! [`VideoFilterChain`] and [`AudioFilterChain`] build a libavfilter description from chainable
//! operators; each operator appends one stage, and the description is the stages joined with
//! commas.

use vstd::prelude::*;
use crate::text::{dec, dec_int, join, push_dec, push_dec_i64, push_secs, join_commas, secs_text};
use crate::time::Duration;
use crate::error::{Error, Result};
use crate::rational::Rational;
use crate::types::{SampleRate, spec_hz};

verus! {

/// How aggressively to denoise.
#[derive(Clone, Copy, Debug, PartialEq, Eq, Structural)]
pub enum DenoiseLevel {
    /// Subtle.
    Light,
    /// Balanced.
    Moderate,
    /// Strong.
    Heavy,
}

/// The `hqdn3d` stage of each denoise level.
pub open spec fn spec_hqdn3d(level: DenoiseLevel) -> Seq<char> {
    match level {
        DenoiseLevel::Light => "hqdn3d=1.5:1.5:6:6"@,
        DenoiseLevel::Moderate => "hqdn3d=4:4:9:9"@,
        DenoiseLevel::Heavy => "hqdn3d=8:8:12:12"@,
    }
}

impl DenoiseLevel {
    /// The `hqdn3d` filter stage for this level.
    pub fn hqdn3d(self) -> (s: &'static str)
        ensures
            s@ == spec_hqdn3d(self),
    {
        match self {
            DenoiseLevel::Light => "hqdn3d=1.5:1.5:6:6",
            DenoiseLevel::Moderate => "hqdn3d=4:4:9:9",
            DenoiseLevel::Heavy => "hqdn3d=8:8:12:12",
        }
    }
}

/// The `scale` stage for `width`×`height`.
pub open spec fn scale_stage(width: nat, height: nat) -> Seq<char> {
    "scale="@ + dec(width) + ":"@ + dec(height)
}

/// The `fps` stage forcing `fps` frames per second.
pub open spec fn fps_stage(fps: nat) -> Seq<char> {
    "fps="@ + dec(fps)
}

/// A chain of video filters. Empty by default; each operator appends a stage.
#[derive(Clone, Debug)]
pub struct VideoFilterChain {
    stages: Vec<String>,
}

impl View for VideoFilterChain {
    type V = Seq<Seq<char>>;

    /// The stages, in order.
    closed spec fn view(&self) -> Seq<Seq<char>> {
        self.stages@.map_values(|s: String| s@)
    }
}

impl VideoFilterChain {
    /// A copy of this chain, stage for stage.
    pub fn duplicate(&self) -> (c: Self)
        ensures
            c@ == self@,
    {
        let mut stages: Vec<String> = Vec::new();
        let mut i: usize = 0;
        while i < self.stages.len()
            invariant
                i <= self.stages.len(),
                stages@.len() == i,
                forall|j: int| 0 <= j < i ==> #[trigger] stages@[j]@ == self.stages@[j]@,
            decreases self.stages.len() - i,
        {
            stages.push(self.stages[i].clone());
            i = i + 1;
        }
        let c = VideoFilterChain { stages };
        assert(c@ =~= self@);
        c
    }

    /// An empty chain (a no-op).
    pub fn new() -> (c: Self)
        ensures
            c@ == Seq::<Seq<char>>::empty(),
    {
        let c = VideoFilterChain { stages: Vec::new() };
        assert(c@ =~= Seq::<Seq<char>>::empty());
        c
    }

    /// A chain of one stage given as a raw libavfilter string, e.g.
    /// `"scale=1280:720,unsharp=5:5:1.0"`.
    pub fn raw(description: &str) -> (c: Self)
        ensures
            c@ == seq![description@],
    {
        let mut stages = Vec::new();
        stages.push(description.to_owned());
        let c = VideoFilterChain { stages };
        assert(c@ =~= seq![description@]);
        c
    }

    /// Append one stage given as a raw libavfilter string.
    pub fn with_stage(self, stage: String) -> (c: Self)
        ensures
            c@ == self@.push(stage@),
    {
        let mut stages = self.stages;
        let ghost before = stages@;
        stages.push(stage);
        let c = VideoFilterChain { stages };
        assert(c@ =~= self@.push(stage@));
        c
    }

    /// Scale to `width`×`height`.
    pub fn scale(self, width: u32, height: u32) -> (c: Self)
        ensures
            c@ == self@.push(scale_stage(width as nat, height as nat)),
    {
        let mut s = String::from_str("scale=");
        push_dec(&mut s, width as u64);
        s.append(":");
        push_dec(&mut s, height as u64);
        self.with_stage(s)
    }

    /// Force a constant frame rate.
    pub fn fps(self, fps: u32) -> (c: Self)
        ensures
            c@ == self@.push(fps_stage(fps as nat)),
    {
        let mut s = String::from_str("fps=");
        push_dec(&mut s, fps as u64);
        self.with_stage(s)
    }

    /// Denoise.
    pub fn denoise(self, level: DenoiseLevel) -> (c: Self)
        ensures
            c@ == self@.push(spec_hqdn3d(level)),
    {
        self.with_stage(String::from_str(level.hqdn3d()))
    }

    /// `true` if no stages were added.
    pub fn is_empty(&self) -> (b: bool)
        ensures
            b == (self@.len() == 0),
    {
        self.stages.len() == 0
    }

    /// The combined libavfilter description (stages joined with `,`).
    pub fn description(&self) -> (d: String)
        ensures
            d@ == join(self@, seq![',']),
    {
        join_commas(&self.stages)
    }
}

/// The `aresample` stage for a target rate.
pub open spec fn resample_stage(hz: int) -> Seq<char> {
    "aresample="@ + dec_int(hz)
}

/// The stage fading in over `duration` nanoseconds from the start.
pub open spec fn fade_in_stage(duration: nat) -> Seq<char> {
    "afade=t=in:st=0:d="@ + secs_text(duration)
}

/// The stage fading out over `duration` nanoseconds starting at `start`.
pub open spec fn fade_out_stage(start: nat, duration: nat) -> Seq<char> {
    "afade=t=out:st="@ + secs_text(start) + ":d="@ + secs_text(duration)
}

/// A chain of audio filters. Empty by default; each operator appends a stage. The audio
/// counterpart to [`VideoFilterChain`].
#[derive(Clone, Debug)]
pub struct AudioFilterChain {
    stages: Vec<String>,
}

impl View for AudioFilterChain {
    type V = Seq<Seq<char>>;

    /// The stages, in order.
    closed spec fn view(&self) -> Seq<Seq<char>> {
        self.stages@.map_values(|s: String| s@)
    }
}

impl AudioFilterChain {
    /// A copy of this chain, stage for stage.
    pub fn duplicate(&self) -> (c: Self)
        ensures
            c@ == self@,
    {
        let mut stages: Vec<String> = Vec::new();
        let mut i: usize = 0;
        while i < self.stages.len()
            invariant
                i <= self.stages.len(),
                stages@.len() == i,
                forall|j: int| 0 <= j < i ==> #[trigger] stages@[j]@ == self.stages@[j]@,
            decreases self.stages.len() - i,
        {
            stages.push(self.stages[i].clone());
            i = i + 1;
        }
        let c = AudioFilterChain { stages };
        assert(c@ =~= self@);
        c
    }

    /// An empty chain (a no-op).
    pub fn new() -> (c: Self)
        ensures
            c@ == Seq::<Seq<char>>::empty(),
    {
        let c = AudioFilterChain { stages: Vec::new() };
        assert(c@ =~= Seq::<Seq<char>>::empty());
        c
    }

    /// A chain of one stage given as a raw libavfilter string, e.g. `"highpass=f=80,volume=2"`.
    pub fn raw(description: &str) -> (c: Self)
        ensures
            c@ == seq![description@],
    {
        let mut stages = Vec::new();
        stages.push(description.to_owned());
        let c = AudioFilterChain { stages };
        assert(c@ =~= seq![description@]);
        c
    }

    /// Append one stage given as a raw libavfilter string.
    pub fn with_stage(self, stage: String) -> (c: Self)
        ensures
            c@ == self@.push(stage@),
    {
        let mut stages = self.stages;
        stages.push(stage);
        let c = AudioFilterChain { stages };
        assert(c@ =~= self@.push(stage@));
        c
    }

    /// Resample to a new sample rate.
    pub fn resample(self, rate: SampleRate) -> (c: Self)
        ensures
            c@ == self@.push(resample_stage(spec_hz(rate) as int)),
    {
        let mut s = String::from_str("aresample=");
        push_dec_i64(&mut s, rate.hz() as i64);
        self.with_stage(s)
    }

    /// Fade in from silence over `duration`, starting at the beginning.
    pub fn fade_in(self, duration: Duration) -> (c: Self)
        ensures
            c@ == self@.push(fade_in_stage(duration@)),
    {
        let mut s = String::from_str("afade=t=in:st=0:d=");
        push_secs(&mut s, duration);
        self.with_stage(s)
    }

    /// Fade out over `duration`, beginning at time `start` (typically
    /// `stream_duration - duration`).
    pub fn fade_out(self, start: Duration, duration: Duration) -> (c: Self)
        ensures
            c@ == self@.push(fade_out_stage(start@, duration@)),
    {
        let mut s = String::from_str("afade=t=out:st=");
        push_secs(&mut s, start);
        s.append(":d=");
        push_secs(&mut s, duration);
        self.with_stage(s)
    }

    /// `true` if no stages were added.
    pub fn is_empty(&self) -> (b: bool)
        ensures
            b == (self@.len() == 0),
    {
        self.stages.len() == 0
    }

    /// The combined libavfilter description (stages joined with `,`).
    pub fn description(&self) -> (d: String)
        ensures
            d@ == join(self@, seq![',']),
    {
        join_commas(&self.stages)
    }
}

/// The shape of the frames fed into a video filter graph.
#[derive(Clone, Copy, Debug, PartialEq, Eq, Structural)]
pub struct VideoInput {
    pub width: i32,
    pub height: i32,
    /// The pixel format, as an FFmpeg format number.
    pub pix_fmt: i32,
    pub time_base: Rational,
    /// `0/x` when unknown (taken as square pixels).
    pub sample_aspect_ratio: Rational,
}

/// `v`, raised to at least 1.
pub open spec fn at_least_one(v: i32) -> i32 {
    if v < 1 {
        1
    } else {
        v
    }
}

/// The arguments of the `buffer` source that feeds frames of shape `input` into a graph: size,
/// pixel format, time base and pixel aspect ratio (square when unknown), with denominators
/// raised to at least 1.
pub open spec fn spec_buffer_source_args(input: VideoInput) -> Seq<char> {
    let sar = if input.sample_aspect_ratio.num == 0 {
        Rational { num: 1, den: 1 }
    } else {
        input.sample_aspect_ratio
    };
    "video_size="@ + dec_int(input.width as int) + "x"@ + dec_int(input.height as int)
        + ":pix_fmt="@ + dec_int(input.pix_fmt as int) + ":time_base="@ + dec_int(
        input.time_base.num as int,
    ) + "/"@ + dec_int(at_least_one(input.time_base.den) as int) + ":pixel_aspect="@ + dec_int(
        sar.num as int,
    ) + "/"@ + dec_int(at_least_one(sar.den) as int)
}

/// The `buffer` source arguments for frames of shape `input`.
pub fn buffer_source_args(input: &VideoInput) -> (args: String)
    ensures
        args@ == spec_buffer_source_args(*input),
{
    proof {
        reveal_strlit("video_size=");
        reveal_strlit("x");
        reveal_strlit(":pix_fmt=");
        reveal_strlit(":time_base=");
        reveal_strlit("/");
        reveal_strlit(":pixel_aspect=");
    }
    let sar = if input.sample_aspect_ratio.num == 0 {
        Rational::new(1, 1)
    } else {
        input.sample_aspect_ratio
    };
    let tb_den: i32 = if input.time_base.den < 1 { 1 } else { input.time_base.den };
    let sar_den: i32 = if sar.den < 1 { 1 } else { sar.den };
    let mut s = String::from_str("video_size=");
    push_dec_i64(&mut s, input.width as i64);
    s.append("x");
    push_dec_i64(&mut s, input.height as i64);
    s.append(":pix_fmt=");
    push_dec_i64(&mut s, input.pix_fmt as i64);
    s.append(":time_base=");
    push_dec_i64(&mut s, input.time_base.num as i64);
    s.append("/");
    push_dec_i64(&mut s, tb_den as i64);
    s.append(":pixel_aspect=");
    push_dec_i64(&mut s, sar.num as i64);
    s.append("/");
    push_dec_i64(&mut s, sar_den as i64);
    assert(s@ =~= spec_buffer_source_args(*input));
    s
}

/// A filter description can be handed to libavfilter only if it holds no NUL character.
pub fn check_filter_description(description: &str) -> (r: Result<()>)
    ensures
        description@.contains('\0') ==> (r matches Err(Error::InvalidConfig(m)) && m@
            == "filter description has NUL"@),
        !description@.contains('\0') ==> r is Ok,
{
    proof {
        reveal_strlit("filter description has NUL");
    }
    let n = description.unicode_len();
    let mut i: usize = 0;
    while i < n
        invariant
            n == description@.len(),
            i <= n,
            forall|j: int| 0 <= j < i ==> description@[j] != '\0',
        decreases n - i,
    {
        if description.get_char(i) == '\0' {
            return Err(Error::InvalidConfig("filter description has NUL"));
        }
        i = i + 1;
    }
    Ok(())
}

/// Appending a stage extends a chain's description: the old description, a comma, and the
/// new stage (just the stage when the chain was empty). Every chain operator appends exactly
/// one stage, so descriptions compose in the order the operators were applied.
pub proof fn lemma_description_appends(stages: Seq<Seq<char>>, stage: Seq<char>)
    ensures
        join(stages.push(stage), seq![',']) == (if stages.len() == 0 {
            stage
        } else {
            join(stages, seq![',']) + seq![','] + stage
        }),
{
    let pushed = stages.push(stage);
    assert(pushed.drop_last() =~= stages);
    assert(pushed.last() == stage);
    if stages.len() == 0 {
        assert(pushed.len() == 1);
        assert(pushed[0] == stage);
    }
}

} // verus!
