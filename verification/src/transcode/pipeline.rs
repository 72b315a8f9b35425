//! The decisions of the transcode pipeline (demux → decode → filter → encode → mux): which
//! streams to carry, whether the container can hold them, how the video stream is filtered and
//! encoded, whether audio is re-encoded or stream-copied and with which codec, which frames and
//! packets fall inside the trim window, and how their timestamps are re-based to start at zero.

use vstd::prelude::*;
use crate::codec::decoder::Decoder;
use crate::codec::encoder::{
    spec_audio_config,
    AudioEncoder, AudioEncoderBuilder, AudioEncoderOptions, VideoEncoder, VideoEncoderBuilder,
    VideoEncoderOptions,
};
use crate::error::{Error, Result};
use crate::filter::{AudioFilterChain, VideoFilterChain};
use crate::format::reader::{MediaReader, SeekRequest};
use crate::frame::{Frame, known_ts};
use crate::packet::{Packet, shifted};
use crate::rational::{Framerate, Rational, i64_max, i64_min, spec_ts_from_nanos};
use crate::text::{dec_int, join, push_dec_i64};
use crate::time::{Duration, NANOS_LIMIT};
use crate::transcode::config::{AudioConfig, VideoConfig, spec_apply_audio, spec_apply_video};
use crate::types::{
    AudioCodec, PixelFormat, SampleRate, VideoCodec, spec_audio_codec_id, spec_channels_layout, spec_hz,
    spec_sample_fmt_to_av,
};

verus! {

/// Output frame rate used when neither the configuration nor the input stream gives one.
pub const DEFAULT_FRAMERATE_FPS: u32 = 25;

/// The resolved options a transcode runs with.
#[derive(Clone, Debug)]
pub struct TranscodeOptions {
    pub input: String,
    pub output: String,
    pub video: Option<VideoConfig>,
    pub audio: Option<AudioConfig>,
    pub drop_video: bool,
    pub drop_audio: bool,
    /// The `(start, end)` of the time range to keep, both inclusive.
    pub trim: Option<(Duration, Duration)>,
    pub video_filter: VideoFilterChain,
    pub audio_filter: AudioFilterChain,
}

/// The input streams a transcode carries over.
#[derive(Clone, Copy, Debug, PartialEq, Eq, Structural)]
pub struct StreamSelection {
    pub video: Option<usize>,
    pub audio: Option<usize>,
}

/// How the audio stream reaches the output.
#[derive(Clone, Copy, Debug, PartialEq, Eq, Structural)]
pub enum AudioRoute {
    /// Packets are muxed verbatim (fast and lossless).
    Copy,
    /// Packets are decoded, optionally filtered, and encoded again.
    Reencode,
}

/// What the demux loop does with one packet.
#[derive(Clone, Copy, Debug, PartialEq, Eq, Structural)]
pub enum PacketRoute {
    /// Decode it as the video stream.
    DecodeVideo,
    /// Decode it as the audio stream, to re-encode.
    DecodeAudio,
    /// Mux it verbatim as the copied audio stream.
    CopyAudio,
    /// It belongs to no carried stream.
    Skip,
}

/// The video codec a transcode encodes with: the configured one, else H.264.
pub open spec fn spec_effective_video_codec(video: Option<VideoConfig>) -> VideoCodec {
    match video {
        Some(c) => c.codec,
        None => VideoCodec::H264,
    }
}

/// The video codec the transcode will actually encode with: the configured one, else H.264.
/// The container check and the encoder set-up both use it, so they never disagree.
pub fn effective_video_codec(opts: &TranscodeOptions) -> (c: VideoCodec)
    ensures
        c == spec_effective_video_codec(opts.video),
{
    match opts.video {
        Some(c) => c.codec,
        None => VideoCodec::H264,
    }
}

/// Pick the input streams to carry: the demuxer's best video and audio stream, unless
/// dropped. Fails when neither remains.
pub fn select_streams(opts: &TranscodeOptions, reader: &MediaReader) -> (r: Result<StreamSelection>)
    ensures
        ({
            let video = if opts.drop_video { None } else { reader.spec_best_video() };
            let audio = if opts.drop_audio { None } else { reader.spec_best_audio() };
            if video is None && audio is None {
                r matches Err(Error::InvalidConfig(m))
                    && m@ == "nothing to transcode (both video and audio dropped or absent)"@
            } else {
                r == Ok::<StreamSelection, Error>(StreamSelection { video, audio })
            }
        }),
{
    proof {
        reveal_strlit("nothing to transcode (both video and audio dropped or absent)");
    }
    let video = if opts.drop_video {
        None
    } else {
        match reader.best_stream(crate::types::StreamKind::Video) {
            Ok(i) => Some(i),
            Err(_) => None,
        }
    };
    let audio = if opts.drop_audio {
        None
    } else {
        match reader.best_stream(crate::types::StreamKind::Audio) {
            Ok(i) => Some(i),
            Err(_) => None,
        }
    };
    if video.is_none() && audio.is_none() {
        return Err(Error::InvalidConfig("nothing to transcode (both video and audio dropped or absent)"));
    }
    Ok(StreamSelection { video, audio })
}

/// Refuse, before any stream is set up, a video stream the output container cannot hold
/// (`video_supported` says whether it accepts the effective video codec).
pub fn check_video_container(selection: StreamSelection, video_supported: bool) -> (r: Result<()>)
    ensures
        selection.video is Some && !video_supported ==> (r matches Err(Error::InvalidConfig(m))
            && m@
            == "output container does not support the video stream; call .drop_video() to drop it (or use a container/codec that supports video)"@),
        !(selection.video is Some && !video_supported) ==> r is Ok,
{
    proof {
        reveal_strlit(
            "output container does not support the video stream; call .drop_video() to drop it (or use a container/codec that supports video)",
        );
    }
    if selection.video.is_some() && !video_supported {
        return Err(
            Error::InvalidConfig(
                "output container does not support the video stream; call .drop_video() to drop it (or use a container/codec that supports video)",
            ),
        );
    }
    Ok(())
}

/// The output size asked for: the configured resolution (each dimension reinterpreted as an
/// `i32`), else the input's.
pub open spec fn spec_video_target(video: Option<VideoConfig>, input: (i32, i32)) -> (i32, i32) {
    match video {
        Some(c) => match c.resolution {
            Some((w, h)) => (w as i32, h as i32),
            None => input,
        },
        None => input,
    }
}

/// The `scale` stage text for a target size.
pub open spec fn scale_text(target: (i32, i32)) -> Seq<char> {
    "scale="@ + dec_int(target.0 as int) + ":"@ + dec_int(target.1 as int)
}

/// The video filter chain in effect: the user's chain when the size is kept; otherwise one
/// stage that scales first and then runs the user's filters.
pub open spec fn spec_video_chain(user: Seq<Seq<char>>, target: (i32, i32), input: (i32, i32)) -> Seq<Seq<char>> {
    if target == input {
        user
    } else if user.len() == 0 {
        seq![scale_text(target)]
    } else {
        seq![scale_text(target) + seq![','] + join(user, seq![','])]
    }
}

/// The size of a decoder's frames, as the encoder and filter graph take it.
pub open spec fn decoder_size(dec: Decoder) -> (i32, i32) {
    (crate::frame::non_negative(dec.spec_params().width) as i32, crate::frame::non_negative(
        dec.spec_params().height,
    ) as i32)
}

/// The output size asked for, given the input's.
pub fn video_target(opts: &TranscodeOptions, in_w: i32, in_h: i32) -> (t: (i32, i32))
    ensures
        t == spec_video_target(opts.video, (in_w, in_h)),
{
    match opts.video {
        Some(c) => match c.resolution {
            Some((w, h)) => (w as i32, h as i32),
            None => (in_w, in_h),
        },
        None => (in_w, in_h),
    }
}

/// The effective video filter chain for a decoder's frames: the user's filters, preceded by a
/// scale to the requested resolution when it differs from the input's (joined into one stage).
pub fn video_filter_chain(opts: &TranscodeOptions, dec: &Decoder) -> (c: VideoFilterChain)
    ensures
        c@ == spec_video_chain(
            opts.video_filter@,
            spec_video_target(opts.video, decoder_size(*dec)),
            decoder_size(*dec),
        ),
{
    let in_w = dec.width() as i32;
    let in_h = dec.height() as i32;
    let target = video_target(opts, in_w, in_h);
    compose_video_chain(&opts.video_filter, target, (in_w, in_h))
}

/// The user's chain when `target == input`; otherwise one stage, `scale=W:H` followed by the
/// user's stages, all joined by commas.
pub fn compose_video_chain(user: &VideoFilterChain, target: (i32, i32), input: (i32, i32)) -> (c: VideoFilterChain)
    ensures
        c@ == spec_video_chain(user@, target, input),
{
    if target.0 == input.0 && target.1 == input.1 {
        return user.duplicate();
    }
    proof {
        reveal_strlit("scale=");
        reveal_strlit(":");
        reveal_strlit(",");
    }
    let mut s = String::from_str("scale=");
    push_dec_i64(&mut s, target.0 as i64);
    s.append(":");
    push_dec_i64(&mut s, target.1 as i64);
    assert(s@ =~= scale_text(target));
    assert(target != input);
    if !user.is_empty() {
        s.append(",");
        let d = user.description();
        s.append(d.as_str());
        assert(s@ =~= scale_text(target) + seq![','] + join(user@, seq![',']));
    }
    VideoFilterChain::raw(s.as_str())
}

/// The output frame rate: the configured one, else the input stream's average rate when it
/// is known (both terms positive), else 25 fps.
pub open spec fn spec_choose_framerate(video: Option<VideoConfig>, avg: Rational) -> Framerate {
    match video {
        Some(c) if c.framerate is Some => c.framerate.unwrap(),
        _ => if avg.num > 0 && avg.den > 0 {
            Framerate(avg)
        } else {
            Framerate(Rational { num: DEFAULT_FRAMERATE_FPS as i32, den: 1 })
        },
    }
}

/// The output frame rate: the configured one, else the input's average rate when known, else
/// 25 fps.
pub fn choose_framerate(opts: &TranscodeOptions, avg_frame_rate: Rational) -> (f: Framerate)
    ensures
        f == spec_choose_framerate(opts.video, avg_frame_rate),
{
    if let Some(c) = opts.video {
        if let Some(f) = c.framerate {
            return f;
        }
    }
    if avg_frame_rate.num > 0 && avg_frame_rate.den > 0 {
        Framerate(avg_frame_rate)
    } else {
        Framerate::fps(DEFAULT_FRAMERATE_FPS)
    }
}

/// The video encoder options a transcode uses: the effective codec, the size and pixel format
/// the filter graph (or, without one, the decoder) delivers, the chosen frame rate, the input
/// time base, the container's global-header flag, then the configuration's own options.
pub open spec fn spec_video_encoder_options(
    video: Option<VideoConfig>,
    codec: VideoCodec,
    size: (i32, i32),
    pix_fmt: PixelFormat,
    framerate: Framerate,
    time_base: Rational,
    global_header: bool,
) -> VideoEncoderOptions {
    let base = VideoEncoderOptions {
        codec: Some(codec),
        width: Some(size.0 as u32),
        height: Some(size.1 as u32),
        pix_fmt: Some(pix_fmt),
        framerate: Some(framerate),
        time_base: Some(time_base),
        bitrate: None,
        preset: None,
        profile: None,
        gop_size: None,
        global_header,
    };
    match video {
        Some(c) => spec_apply_video(c, base),
        None => base,
    }
}

/// Configure the video encoder builder for a transcode (see [`spec_video_encoder_options`]).
pub fn video_encoder_builder(
    opts: &TranscodeOptions,
    size: (i32, i32),
    pix_fmt: PixelFormat,
    framerate: Framerate,
    time_base: Rational,
    global_header: bool,
) -> (b: VideoEncoderBuilder)
    ensures
        b@ == spec_video_encoder_options(
            opts.video,
            spec_effective_video_codec(opts.video),
            size,
            pix_fmt,
            framerate,
            time_base,
            global_header,
        ),
{
    let codec = effective_video_codec(opts);
    let mut eb = VideoEncoder::builder().codec(codec).resolution(size.0 as u32, size.1 as u32).pixel_format(
        pix_fmt,
    ).framerate(framerate).time_base(time_base).global_header(global_header);
    if let Some(c) = &opts.video {
        eb = c.apply_to(eb);
    }
    eb
}

/// `true` when the audio must be re-encoded whatever the container accepts: an audio
/// configuration or an audio filter was given.
pub open spec fn spec_wants_audio_reencode(opts: TranscodeOptions) -> bool {
    opts.audio is Some || opts.audio_filter@.len() > 0
}

/// How the audio reaches the output: re-encoded when asked for or when the container cannot
/// hold the source codec (`src_supported`), else copied.
pub fn audio_route(opts: &TranscodeOptions, src_supported: bool) -> (r: AudioRoute)
    ensures
        r == (if spec_wants_audio_reencode(*opts) || !src_supported {
            AudioRoute::Reencode
        } else {
            AudioRoute::Copy
        }),
{
    let want_reencode = opts.audio.is_some() || !opts.audio_filter.is_empty();
    if want_reencode || !src_supported {
        AudioRoute::Reencode
    } else {
        AudioRoute::Copy
    }
}

/// The codec audio is re-encoded to: the configured one; else the source codec when the
/// container accepts it and it is a known codec; else the container's default audio codec
/// when known.
pub open spec fn spec_resolve_audio_codec(
    audio: Option<AudioConfig>,
    src_supported: bool,
    src_codec_id: i32,
    default_codec_id: i32,
) -> Option<AudioCodec> {
    if audio is Some {
        Some(audio.unwrap().codec)
    } else if src_supported && crate::probe::audio_codec_with_id(src_codec_id) is Some {
        crate::probe::audio_codec_with_id(src_codec_id)
    } else {
        crate::probe::audio_codec_with_id(default_codec_id)
    }
}

/// Decide which codec to re-encode audio to (see [`spec_resolve_audio_codec`]); fails when
/// none applies.
pub fn resolve_audio_codec(
    opts: &TranscodeOptions,
    src_supported: bool,
    src_codec_id: i32,
    default_codec_id: i32,
) -> (r: Result<AudioCodec>)
    ensures
        match spec_resolve_audio_codec(opts.audio, src_supported, src_codec_id, default_codec_id) {
            Some(c) => r == Ok::<AudioCodec, Error>(c),
            None => r matches Err(Error::InvalidConfig(m))
                && m@ == "cannot encode audio for this container; set .audio(...) with a supported codec"@,
        },
{
    proof {
        reveal_strlit("cannot encode audio for this container; set .audio(...) with a supported codec");
    }
    if let Some(c) = opts.audio {
        return Ok(c.codec);
    }
    let src = AudioCodec::from_codec_id(src_codec_id);
    let dflt = AudioCodec::from_codec_id(default_codec_id);
    proof {
        crate::probe::lemma_audio_codec_lookup(src_codec_id, src);
        crate::probe::lemma_audio_codec_lookup(default_codec_id, dflt);
    }
    if src_supported {
        if let Some(c) = src {
            return Ok(c);
        }
    }
    match dflt {
        Some(c) => Ok(c),
        None => Err(
            Error::InvalidConfig("cannot encode audio for this container; set .audio(...) with a supported codec"),
        ),
    }
}

/// The audio encoder options a transcode uses: the resolved codec, the decoder's sample rate
/// (when known) and channel layout, the container's global-header flag, then the
/// configuration's own options.
pub open spec fn spec_audio_encoder_options(
    audio: Option<AudioConfig>,
    codec: AudioCodec,
    dec: Decoder,
    global_header: bool,
) -> AudioEncoderOptions {
    let base = AudioEncoderOptions {
        codec: Some(codec),
        bitrate: None,
        sample_rate: if dec.spec_params().sample_rate > 0 {
            Some(SampleRate::Hz(dec.spec_params().sample_rate))
        } else {
            None
        },
        channels: None,
        layout: Some(dec.spec_params().ch_layout),
        sample_format: None,
        global_header: Some(global_header),
    };
    match audio {
        Some(c) => spec_apply_audio(c, base),
        None => base,
    }
}

/// A re-encoding transcode encodes audio at the configured sample rate when the audio
/// configuration sets one, and at the source decoder's rate (when known) otherwise; an
/// explicit sample format or channel configuration likewise reaches the encoder.
pub proof fn lemma_transcode_audio_settings(
    audio: Option<AudioConfig>,
    codec: AudioCodec,
    dec: Decoder,
    global_header: bool,
    formats: Seq<i32>,
    frame_size: i32,
    variable: bool,
)
    ensures
        ({
            let cfg = spec_audio_config(
                spec_audio_encoder_options(audio, codec, dec, global_header),
                formats,
                frame_size,
                variable,
            );
            &&& cfg.codec == codec
            &&& audio is Some && audio.unwrap().sample_rate is Some ==> cfg.sample_rate == spec_hz(
                audio.unwrap().sample_rate.unwrap(),
            )
            &&& (audio is None || audio.unwrap().sample_rate is None) && dec.spec_params().sample_rate > 0
                ==> cfg.sample_rate == dec.spec_params().sample_rate
            &&& audio is Some && audio.unwrap().sample_format is Some ==> cfg.sample_fmt
                == spec_sample_fmt_to_av(audio.unwrap().sample_format.unwrap())
            &&& audio is Some && audio.unwrap().channels is Some ==> cfg.layout == spec_channels_layout(
                audio.unwrap().channels.unwrap(),
            )
            &&& cfg.global_header == global_header
        }),
{
    let o = spec_audio_encoder_options(audio, codec, dec, global_header);
    let cfg = spec_audio_config(o, formats, frame_size, variable);
    if let Some(c) = audio {
        crate::transcode::config::lemma_audio_config_overrides(
            c,
            AudioEncoderOptions {
                codec: Some(codec),
                bitrate: None,
                sample_rate: if dec.spec_params().sample_rate > 0 {
                    Some(SampleRate::Hz(dec.spec_params().sample_rate))
                } else {
                    None
                },
                channels: None,
                layout: Some(dec.spec_params().ch_layout),
                sample_format: None,
                global_header: Some(global_header),
            },
        );
    }
}

/// Configure the audio encoder builder for a re-encoding transcode (see
/// [`spec_audio_encoder_options`]).
pub fn audio_encoder_builder(
    opts: &TranscodeOptions,
    codec: AudioCodec,
    dec: &Decoder,
    global_header: bool,
) -> (b: AudioEncoderBuilder)
    ensures
        b@ == spec_audio_encoder_options(opts.audio, codec, *dec, global_header),
{
    let mut eb = AudioEncoder::builder().codec(codec).from_decoder(dec).global_header(global_header);
    if let Some(c) = &opts.audio {
        eb = c.apply_to(eb);
    }
    eb
}

/// What the demux loop does with a packet of input stream `stream_index`.
pub fn route_packet(stream_index: usize, selection: StreamSelection, audio: AudioRoute) -> (r: PacketRoute)
    ensures
        r == (if selection.video == Some(stream_index) {
            PacketRoute::DecodeVideo
        } else if selection.audio == Some(stream_index) {
            if audio == AudioRoute::Reencode {
                PacketRoute::DecodeAudio
            } else {
                PacketRoute::CopyAudio
            }
        } else {
            PacketRoute::Skip
        }),
{
    if selection.video == Some(stream_index) {
        PacketRoute::DecodeVideo
    } else if selection.audio == Some(stream_index) {
        match audio {
            AudioRoute::Reencode => PacketRoute::DecodeAudio,
            AudioRoute::Copy => PacketRoute::CopyAudio,
        }
    } else {
        PacketRoute::Skip
    }
}

/// The time of timestamp `ts` in time base `tb`, times `den * 10^9`: comparing it with a
/// duration in nanoseconds times `den` compares the two times exactly.
pub open spec fn scaled_time(ts: int, tb: Rational) -> int {
    ts * tb.num * 1_000_000_000
}

/// Timestamp `ts` (in time base `tb`) lies in the kept window: not before its start and, when
/// trimming, not after its end. Without a trim the window is every non-negative time.
pub open spec fn spec_in_trim(ts: int, tb: Rational, trim: Option<(Duration, Duration)>) -> bool {
    match trim {
        Some((start, end)) => start@ * tb.den <= scaled_time(ts, tb) && scaled_time(ts, tb) <= end@
            * tb.den,
        None => 0 <= scaled_time(ts, tb),
    }
}

/// Whether timestamp `ts` (in time base `tb`) lies in the kept window, compared exactly.
pub fn in_trim(ts: i64, tb: Rational, trim: Option<(Duration, Duration)>) -> (b: bool)
    requires
        tb.num > 0,
        tb.den > 0,
    ensures
        b == spec_in_trim(ts as int, tb, trim),
{
    assert(-0x8000_0000_0000_0000 * 0x7fff_ffff * 1_000_000_000 <= ts as int * tb.num * 1_000_000_000
        <= 0x7fff_ffff_ffff_ffff * 0x7fff_ffff * 1_000_000_000) by (nonlinear_arith)
        requires
            -0x8000_0000_0000_0000 <= ts <= 0x7fff_ffff_ffff_ffff,
            0 < tb.num <= 0x7fff_ffff,
    ;
    let t: i128 = ts as i128 * tb.num as i128 * 1_000_000_000i128;
    match trim {
        Some((start, end)) => {
            let s = start.as_nanos();
            let e = end.as_nanos();
            assert(s as int * tb.den < NANOS_LIMIT * 0x8000_0000) by (nonlinear_arith)
                requires
                    0 <= s < NANOS_LIMIT,
                    0 < tb.den <= 0x7fff_ffff,
            ;
            assert(e as int * tb.den < NANOS_LIMIT * 0x8000_0000) by (nonlinear_arith)
                requires
                    0 <= e < NANOS_LIMIT,
                    0 < tb.den <= 0x7fff_ffff,
            ;
            let lo: i128 = (s * tb.den as u128) as i128;
            let hi: i128 = (e * tb.den as u128) as i128;
            lo <= t && t <= hi
        },
        None => 0 <= t,
    }
}

/// The trim start expressed in time base `tb` (zero without a trim): the timestamp subtracted
/// from every kept timestamp so the output starts at zero.
pub fn trim_start_ts(tb: Rational, trim: Option<(Duration, Duration)>) -> (ts: i64)
    requires
        tb.num > 0,
    ensures
        ts == (match trim {
            Some((start, _)) => spec_ts_from_nanos(start@, tb),
            None => 0,
        }),
{
    match trim {
        Some((start, _)) => tb.ts_from_duration(start),
        None => 0,
    }
}

/// The output's real duration in nanoseconds: the kept window clamped to the input's
/// duration, and zero when the window lies beyond it.
pub open spec fn spec_output_span(trim: Option<(Duration, Duration)>, total: nat) -> nat {
    match trim {
        Some((start, end)) => {
            let stop = if end@ < total {
                end@
            } else {
                total
            };
            if stop > start@ {
                (stop - start@) as nat
            } else {
                0
            }
        },
        None => total,
    }
}

/// The output's real duration: the kept window clamped to the input's duration `total`.
pub fn output_span(trim: Option<(Duration, Duration)>, total: Duration) -> (d: Duration)
    ensures
        d@ == spec_output_span(trim, total@),
{
    match trim {
        Some((start, end)) => {
            let t = total.as_nanos();
            let e = end.as_nanos();
            let stop = if e < t {
                e
            } else {
                t
            };
            let s = start.as_nanos();
            if stop > s {
                Duration::from_total_nanos(stop - s)
            } else {
                Duration::zero()
            }
        },
        None => total,
    }
}

/// The frame's usable timestamp (best effort, else pts, else zero).
pub open spec fn frame_best_ts(f: Frame) -> int {
    match known_ts(f.spec_best_effort()) {
        Some(b) => b as int,
        None => match known_ts(f.spec_pts()) {
            Some(p) => p as int,
            None => 0,
        },
    }
}

/// Re-base a kept video frame for the encoder: its pts becomes its usable timestamp minus the
/// trim start (both in the source time base).
pub fn rebase_frame_pts(frame: &mut Frame, start_ts: i64)
    requires
        i64_min() <= frame_best_ts(*old(frame)) - start_ts <= i64_max(),
    ensures
        final(frame).spec_pts() == frame_best_ts(*old(frame)) - start_ts,
        final(frame).spec_best_effort() == old(frame).spec_best_effort(),
        final(frame).spec_width() == old(frame).spec_width(),
        final(frame).spec_height() == old(frame).spec_height(),
        final(frame).spec_format() == old(frame).spec_format(),
        final(frame).spec_nb_samples() == old(frame).spec_nb_samples(),
        final(frame).spec_sample_rate() == old(frame).spec_sample_rate(),
        final(frame).spec_ch_layout() == old(frame).spec_ch_layout(),
{
    let ts = frame.best_ts();
    frame.set_pts(ts - start_ts);
}

/// Prepare a kept, stream-copied audio packet for the muxer: shift its known timestamps
/// earlier by the trim start and tag it with the output stream.
pub fn prepare_copied_packet(packet: &mut Packet, start_ts: i64, out_index: usize)
    requires
        i64_min() <= shifted(old(packet).spec_pts(), start_ts) <= i64_max(),
        i64_min() <= shifted(old(packet).spec_dts(), start_ts) <= i64_max(),
    ensures
        final(packet).spec_pts() == shifted(old(packet).spec_pts(), start_ts),
        final(packet).spec_dts() == shifted(old(packet).spec_dts(), start_ts),
        final(packet).spec_stream_index() == out_index as i32,
        final(packet).spec_duration() == old(packet).spec_duration(),
        final(packet).spec_pos() == old(packet).spec_pos(),
        final(packet).spec_data() == old(packet).spec_data(),
{
    packet.offset_timestamps(start_ts);
    packet.set_stream_index(out_index);
}

/// The streams a transcode carries: the demuxer's best video and audio stream, unless dropped.
pub open spec fn spec_selection(opts: TranscodeOptions, reader: MediaReader) -> StreamSelection {
    StreamSelection {
        video: if opts.drop_video { None } else { reader.spec_best_video() },
        audio: if opts.drop_audio { None } else { reader.spec_best_audio() },
    }
}

/// The time base of the carried stream `index`, or `1/1` when there is none.
pub open spec fn spec_stream_tb(reader: MediaReader, index: Option<usize>) -> Rational {
    match index {
        Some(i) => reader.spec_streams()[i as int].time_base,
        None => Rational { num: 1, den: 1 },
    }
}

/// The start of the kept window (zero without a trim).
pub open spec fn spec_trim_start(trim: Option<(Duration, Duration)>) -> nat {
    match trim {
        Some((s, _)) => s@,
        None => 0,
    }
}

/// Everything a transcode decides before it reads a packet.
#[derive(Clone, Copy, Debug)]
pub struct TranscodePlan {
    /// The input streams carried over.
    pub selection: StreamSelection,
    /// How the audio stream travels, when one is carried.
    pub audio_route: Option<AudioRoute>,
    /// The codec audio is re-encoded to, when it is re-encoded.
    pub audio_codec: Option<AudioCodec>,
    /// The video stream's time base (`1/1` without video).
    pub video_time_base: Rational,
    /// The audio stream's time base (`1/1` without audio).
    pub audio_time_base: Rational,
    /// The trim start in the video time base, subtracted from every kept frame.
    pub video_start_ts: i64,
    /// The trim start in the audio time base, subtracted from every copied packet.
    pub audio_start_ts: i64,
    /// The output's real duration.
    pub span: Duration,
    /// Where to seek before reading, when the trim starts after zero: the carried video
    /// stream (else the audio one) at the trim start.
    pub seek: Option<SeekRequest>,
}

/// Decide a transcode of `reader` into a container that does (`video_supported`) or does not
/// accept the effective video codec, does (`audio_src_supported`) or does not accept the
/// carried audio stream's codec, and whose default audio codec is `default_audio_codec_id`.
/// Fails when nothing is left to carry, when the container cannot hold the video, when a
/// carried stream does not exist, or when no audio codec can be chosen for a re-encode.
pub fn plan_transcode(
    opts: &TranscodeOptions,
    reader: &MediaReader,
    video_supported: bool,
    audio_src_supported: bool,
    default_audio_codec_id: i32,
) -> (r: Result<TranscodePlan>)
    requires
        reader.wf(),
    ensures
        ({
            let sel = spec_selection(*opts, *reader);
            let n = reader.spec_streams().len();
            if sel.video is None && sel.audio is None {
                r matches Err(Error::InvalidConfig(m))
                    && m@ == "nothing to transcode (both video and audio dropped or absent)"@
            } else if sel.video is Some && !video_supported {
                r matches Err(Error::InvalidConfig(m))
                    && m@
                    == "output container does not support the video stream; call .drop_video() to drop it (or use a container/codec that supports video)"@
            } else if sel.video is Some && sel.video.unwrap() >= n {
                r matches Err(Error::StreamOutOfRange(i)) && i == sel.video.unwrap()
            } else if sel.audio is Some && sel.audio.unwrap() >= n {
                r matches Err(Error::StreamOutOfRange(i)) && i == sel.audio.unwrap()
            } else {
                let reencode = spec_wants_audio_reencode(*opts) || !audio_src_supported;
                let codec = spec_resolve_audio_codec(
                    opts.audio,
                    audio_src_supported,
                    reader.spec_streams()[sel.audio.unwrap() as int].codec_id,
                    default_audio_codec_id,
                );
                let v_tb = spec_stream_tb(*reader, sel.video);
                let a_tb = spec_stream_tb(*reader, sel.audio);
                if sel.audio is Some && reencode && codec is None {
                    r matches Err(Error::InvalidConfig(m))
                        && m@ == "cannot encode audio for this container; set .audio(...) with a supported codec"@
                } else {
                    r matches Ok(p) && {
                        &&& p.selection == sel
                        &&& p.audio_route == (if sel.audio is None {
                            None
                        } else if reencode {
                            Some(AudioRoute::Reencode)
                        } else {
                            Some(AudioRoute::Copy)
                        })
                        &&& p.audio_codec == (if sel.audio is Some && reencode {
                            codec
                        } else {
                            None
                        })
                        &&& p.video_time_base == v_tb
                        &&& p.audio_time_base == a_tb
                        &&& p.video_start_ts == spec_ts_from_nanos(spec_trim_start(opts.trim), v_tb)
                        &&& p.audio_start_ts == spec_ts_from_nanos(spec_trim_start(opts.trim), a_tb)
                        &&& p.span@ == spec_output_span(opts.trim, reader.spec_duration_nanos())
                        &&& p.seek == (if spec_trim_start(opts.trim) > 0 {
                            let i = if sel.video is Some {
                                sel.video.unwrap()
                            } else {
                                sel.audio.unwrap()
                            };
                            Some(
                                SeekRequest {
                                    stream_index: i,
                                    ts: spec_ts_from_nanos(
                                        spec_trim_start(opts.trim),
                                        reader.spec_streams()[i as int].time_base,
                                    ) as i64,
                                },
                            )
                        } else {
                            None
                        })
                    }
                }
            }
        }),
{
    let selection = match select_streams(opts, reader) {
        Ok(s) => s,
        Err(e) => return Err(e),
    };
    match check_video_container(selection, video_supported) {
        Ok(()) => {},
        Err(e) => return Err(e),
    }
    let video_time_base = match selection.video {
        Some(v) => match reader.stream_time_base(v) {
            Ok(tb) => tb,
            Err(e) => return Err(e),
        },
        None => Rational::one(),
    };
    let audio_time_base = match selection.audio {
        Some(a) => match reader.stream_time_base(a) {
            Ok(tb) => tb,
            Err(e) => return Err(e),
        },
        None => Rational::one(),
    };
    let (audio_route, audio_codec) = match selection.audio {
        Some(a) => {
            let src_codec_id = match reader.stream_params(a) {
                Ok(p) => p.codec_id,
                Err(e) => return Err(e),
            };
            match audio_route(opts, audio_src_supported) {
                AudioRoute::Reencode => match resolve_audio_codec(
                    opts,
                    audio_src_supported,
                    src_codec_id,
                    default_audio_codec_id,
                ) {
                    Ok(c) => (Some(AudioRoute::Reencode), Some(c)),
                    Err(e) => return Err(e),
                },
                AudioRoute::Copy => (Some(AudioRoute::Copy), None),
            }
        },
        None => (None, None),
    };
    proof {
        if let Some(v) = selection.video {
            assert(reader.spec_streams()[v as int].time_base.num > 0);
        }
        if let Some(a) = selection.audio {
            assert(reader.spec_streams()[a as int].time_base.num > 0);
        }
    }
    proof {
        lemma_ts_of_zero(video_time_base);
        lemma_ts_of_zero(audio_time_base);
    }
    let video_start_ts = trim_start_ts(video_time_base, opts.trim);
    let audio_start_ts = trim_start_ts(audio_time_base, opts.trim);
    let span = output_span(opts.trim, reader.duration());
    let seek = match opts.trim {
        Some((start, _)) => if start.as_nanos() > 0 {
            let i = match selection.video {
                Some(v) => v,
                None => match selection.audio {
                    Some(a) => a,
                    None => 0,
                },
            };
            match reader.seek(i, start) {
                Ok(req) => Some(req),
                Err(e) => return Err(e),
            }
        } else {
            None
        },
        None => None,
    };
    Ok(
        TranscodePlan {
            selection,
            audio_route,
            audio_codec,
            video_time_base,
            audio_time_base,
            video_start_ts,
            audio_start_ts,
            span,
            seek,
        },
    )
}

/// One item handed from the demux/decode side of a transcode to its encode/mux side.
#[derive(Clone, Copy, Debug, PartialEq, Eq, Structural)]
pub enum WorkKind {
    /// A decoded, kept video frame.
    VideoFrame,
    /// A decoded, kept audio frame to re-encode.
    AudioFrame,
    /// A kept audio packet to mux as it is.
    AudioPacket,
}

/// The encode/mux side's bookkeeping: how many video frames it has encoded, and whether audio
/// frames drive progress reports (they do when there is no video).
#[derive(Clone, Copy, Debug, PartialEq, Eq, Structural)]
pub struct ConsumerState {
    pub frames: u64,
    pub audio_drives_progress: bool,
}

impl ConsumerState {
    /// The state before any work arrives.
    pub fn new(has_video: bool) -> (c: ConsumerState)
        ensures
            c.frames == 0,
            c.audio_drives_progress == !has_video,
    {
        ConsumerState { frames: 0, audio_drives_progress: !has_video }
    }

    /// Account for one work item, whose processing encoded `encoded` video frames (the
    /// filter may turn one frame into several, or none); returns whether a progress report
    /// follows it: after every video frame, after an audio frame only when audio drives
    /// progress, never after a muxed packet.
    pub fn on_work(&mut self, kind: WorkKind, encoded: u64) -> (report: bool)
        requires
            kind == WorkKind::VideoFrame ==> old(self).frames + encoded <= u64::MAX,
        ensures
            final(self).audio_drives_progress == old(self).audio_drives_progress,
            final(self).frames == (if kind == WorkKind::VideoFrame {
                old(self).frames + encoded
            } else {
                old(self).frames as int
            }),
            report == (match kind {
                WorkKind::VideoFrame => true,
                WorkKind::AudioFrame => old(self).audio_drives_progress,
                WorkKind::AudioPacket => false,
            }),
    {
        match kind {
            WorkKind::VideoFrame => {
                self.frames = self.frames + encoded;
                true
            },
            WorkKind::AudioFrame => self.audio_drives_progress,
            WorkKind::AudioPacket => false,
        }
    }

    /// Account for the video frames encoded while flushing the filter at end of stream.
    pub fn on_flushed(&mut self, encoded: u64)
        requires
            old(self).frames + encoded <= u64::MAX,
        ensures
            final(self).frames == old(self).frames + encoded,
            final(self).audio_drives_progress == old(self).audio_drives_progress,
    {
        self.frames = self.frames + encoded;
    }
}

/// The zero instant is tick zero in every positive time base.
proof fn lemma_ts_of_zero(tb: Rational)
    requires
        tb.num > 0,
    ensures
        spec_ts_from_nanos(0, tb) == 0,
{
    let q: int = tb.num * 1_000_000_000;
    assert(q > 0) by (nonlinear_arith)
        requires
            tb.num > 0,
            q == tb.num * 1_000_000_000,
    ;
    assert((2 * (0 * tb.den) + q) / (2 * q) == 0) by (nonlinear_arith)
        requires
            q > 0,
    ;
}

/// A timestamp kept by a trim never lies before the trim start expressed in the same time
/// base, so re-based timestamps start at zero, never below.
pub proof fn lemma_kept_ts_not_before_start(ts: i64, tb: Rational, start: Duration, end: Duration)
    requires
        tb.num > 0,
        tb.den > 0,
        spec_in_trim(ts as int, tb, Some((start, end))),
    ensures
        0 <= spec_ts_from_nanos(start@, tb) <= ts,
{
    let p: int = start@ * tb.den;
    let q: int = tb.num * 1_000_000_000;
    assert(p >= 0 && q > 0) by (nonlinear_arith)
        requires
            start@ >= 0,
            tb.den > 0,
            tb.num > 0,
            p == start@ * tb.den,
            q == tb.num * 1_000_000_000,
    ;
    assert(p <= ts * q) by (nonlinear_arith)
        requires
            p <= ts * tb.num * 1_000_000_000,
            q == tb.num * 1_000_000_000,
    ;
    assert(0 <= (2 * p + q) / (2 * q) <= ts) by (nonlinear_arith)
        requires
            p >= 0,
            q > 0,
            p <= ts * q,
    {
        vstd::arithmetic::div_mod::lemma_div_pos_is_pos(2 * p + q, 2 * q);
        vstd::arithmetic::div_mod::lemma_div_by_multiple_is_strongly_ordered(
            2 * p + q,
            2 * ts * q + 2 * q,
            ts + 1,
            2 * q,
        );
    }
}

} // verus!
