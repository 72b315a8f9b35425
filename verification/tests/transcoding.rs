use media::codec::decoder::{CodecParameters, Decoder};
use media::error::Error;
use media::filter::{AudioFilterChain, VideoFilterChain};
use media::format::reader::{BestStreams, MediaReader};
use media::frame::Frame;
use media::packet::Packet;
use media::rational::{Bitrate, Framerate, Rational};
use media::time::Duration;
use media::transcode::config::{AudioConfig, VideoConfig};
use media::transcode::oneliner::{transcode, transcode_audio};
use media::transcode::pipeline::{
    audio_encoder_builder, audio_route, check_video_container, choose_framerate, compose_video_chain,
    effective_video_codec, in_trim, output_span, prepare_copied_packet, rebase_frame_pts, resolve_audio_codec,
    route_packet, select_streams, trim_start_ts, video_encoder_builder, video_filter_chain, AudioRoute,
    PacketRoute, StreamSelection,
};
use media::transcode::Transcoder;
use media::transcode::pipeline::{ConsumerState, WorkKind};
use media::types::{AudioCodec, ChannelLayout, Channels, H264Preset, PixelFormat, SampleRate, StreamKind, VideoCodec};
use media::format::reader::SeekRequest;
use media::transcode::pipeline::plan_transcode;

fn options(builder: media::transcode::TranscoderBuilder) -> media::transcode::pipeline::TranscodeOptions {
    builder.input("in.mp4".to_string()).output("out.mp4".to_string()).build().unwrap().options().clone()
}

fn video_params() -> CodecParameters {
    CodecParameters {
        kind: StreamKind::Video,
        codec_id: VideoCodec::H264.codec_id(),
        width: 1920,
        height: 1080,
        format: 0,
        sample_rate: 0,
        ch_layout: ChannelLayout { nb_channels: 0, mask: 0 },
        framerate: Rational::new(0, 0),
        time_base: Rational::new(1, 1000),
        avg_frame_rate: Rational::new(24000, 1001),
    }
}

#[test]
fn the_builder_requires_an_input_and_an_output() {
    assert!(matches!(Transcoder::builder().build(), Err(Error::InvalidConfig("transcoder requires an input"))));
    assert!(matches!(
        Transcoder::builder().input("a.mp4".to_string()).build(),
        Err(Error::InvalidConfig("transcoder requires an output"))
    ));
    let job = transcode_audio("movie.mp4".to_string()).to("song.mp3".to_string()).build().unwrap();
    assert!(job.options().drop_video);
    assert_eq!(job.options().output, "song.mp3");
    assert!(transcode("x.mp4".to_string()).build().is_err());
}

#[test]
fn configs_require_a_codec() {
    assert!(matches!(VideoConfig::builder().build(), Err(Error::InvalidConfig("video config requires a codec"))));
    assert!(matches!(AudioConfig::builder().build(), Err(Error::InvalidConfig("audio config requires a codec"))));
    let v = VideoConfig::builder().codec(VideoCodec::Vp9).resolution(1280, 720).build().unwrap();
    assert_eq!(v.codec, VideoCodec::Vp9);
    assert_eq!(v.resolution, Some((1280, 720)));
}

#[test]
fn nothing_left_to_transcode_is_refused() {
    let reader = MediaReader::open(vec![video_params()], 0, BestStreams { video: Some(0), audio: None, data: None, subtitle: None, attachment: None, unknown: None });
    let dropped = options(Transcoder::builder().drop_video());
    assert!(matches!(
        select_streams(&dropped, &reader),
        Err(Error::InvalidConfig("nothing to transcode (both video and audio dropped or absent)"))
    ));
    let kept = options(Transcoder::builder());
    assert_eq!(select_streams(&kept, &reader).unwrap(), StreamSelection { video: Some(0), audio: None });
}

#[test]
fn a_container_without_video_support_is_refused_up_front() {
    let sel = StreamSelection { video: Some(0), audio: Some(1) };
    assert!(check_video_container(sel, false).is_err());
    assert!(check_video_container(sel, true).is_ok());
    assert!(check_video_container(StreamSelection { video: None, audio: Some(1) }, false).is_ok());
    assert_eq!(effective_video_codec(&options(Transcoder::builder())), VideoCodec::H264);
}

#[test]
fn a_new_resolution_scales_before_the_user_filters() {
    let user = VideoFilterChain::new().fps(30);
    assert_eq!(compose_video_chain(&user, (1280, 720), (1920, 1080)).description(), "scale=1280:720,fps=30");
    assert_eq!(compose_video_chain(&VideoFilterChain::new(), (640, 360), (1920, 1080)).description(), "scale=640:360");
    let kept = compose_video_chain(&user, (1920, 1080), (1920, 1080));
    assert_eq!(kept.description(), "fps=30");
    let cfg = VideoConfig::builder().codec(VideoCodec::H264).resolution(1280, 720).build().unwrap();
    let opts = options(Transcoder::builder().video(cfg));
    let dec = Decoder::open(video_params());
    assert_eq!(video_filter_chain(&opts, &dec).description(), "scale=1280:720");
}

#[test]
fn the_frame_rate_falls_back_to_the_input_then_25() {
    let none = options(Transcoder::builder());
    assert_eq!(choose_framerate(&none, Rational::new(24000, 1001)), Framerate(Rational::new(24000, 1001)));
    assert_eq!(choose_framerate(&none, Rational::new(0, 0)), Framerate(Rational::new(25, 1)));
    let cfg = VideoConfig::builder().codec(VideoCodec::H264).framerate(Framerate::fps(60)).build().unwrap();
    assert_eq!(choose_framerate(&options(Transcoder::builder().video(cfg)), Rational::new(30, 1)), Framerate::fps(60));
}

#[test]
fn the_video_encoder_takes_the_graph_output_and_the_config() {
    let cfg = VideoConfig::builder()
        .codec(VideoCodec::H265)
        .bitrate(Bitrate::mbps(4))
        .preset(H264Preset::Slow)
        .build()
        .unwrap();
    let opts = options(Transcoder::builder().video(cfg));
    let enc = video_encoder_builder(&opts, (1280, 720), PixelFormat::Yuv420p, Framerate::fps(30), Rational::new(1, 1000), true)
        .build()
        .unwrap();
    let c = enc.config();
    assert_eq!(c.codec, VideoCodec::H265);
    assert_eq!((c.width, c.height), (1280, 720));
    assert_eq!(c.time_base, Rational::new(1, 1000));
    assert_eq!(c.preset, Some(H264Preset::Slow));
    assert_eq!(c.bitrate.map(|b| b.as_bps()), Some(4_000_000));
}

#[test]
fn audio_is_copied_unless_asked_or_unsupported() {
    let plain = options(Transcoder::builder());
    assert_eq!(audio_route(&plain, true), AudioRoute::Copy);
    assert_eq!(audio_route(&plain, false), AudioRoute::Reencode);
    let filtered = options(Transcoder::builder().audio_filter(AudioFilterChain::raw("volume=2")));
    assert_eq!(audio_route(&filtered, true), AudioRoute::Reencode);
    let sel = StreamSelection { video: Some(0), audio: Some(1) };
    assert_eq!(route_packet(0, sel, AudioRoute::Copy), PacketRoute::DecodeVideo);
    assert_eq!(route_packet(1, sel, AudioRoute::Copy), PacketRoute::CopyAudio);
    assert_eq!(route_packet(1, sel, AudioRoute::Reencode), PacketRoute::DecodeAudio);
    assert_eq!(route_packet(2, sel, AudioRoute::Copy), PacketRoute::Skip);
}

#[test]
fn the_audio_codec_is_resolved_in_order() {
    let plain = options(Transcoder::builder());
    let aac = AudioCodec::Aac.codec_id();
    let mp3 = AudioCodec::Mp3.codec_id();
    assert_eq!(resolve_audio_codec(&plain, true, aac, mp3).unwrap(), AudioCodec::Aac);
    assert_eq!(resolve_audio_codec(&plain, false, aac, mp3).unwrap(), AudioCodec::Mp3);
    assert!(matches!(
        resolve_audio_codec(&plain, false, aac, 0),
        Err(Error::InvalidConfig("cannot encode audio for this container; set .audio(...) with a supported codec"))
    ));
    let opus = AudioConfig::builder().codec(AudioCodec::Opus).channels(Channels::Mono).build().unwrap();
    let chosen = options(Transcoder::builder().audio(opus));
    assert_eq!(resolve_audio_codec(&chosen, true, aac, mp3).unwrap(), AudioCodec::Opus);
    let dec = Decoder::open(CodecParameters {
        kind: StreamKind::Audio,
        codec_id: aac,
        width: 0,
        height: 0,
        format: 8,
        sample_rate: 44100,
        ch_layout: Channels::Stereo.to_layout(),
        framerate: Rational::new(0, 0),
        time_base: Rational::new(1, 44100),
        avg_frame_rate: Rational::new(0, 0),
    });
    let caps = media::codec::encoder::AudioEncoderCaps { supported_sample_formats: vec![], frame_size: 960, variable_frame_size: false };
    let enc = audio_encoder_builder(&chosen, AudioCodec::Opus, &dec, false).build(&caps).unwrap();
    assert_eq!(enc.config.sample_rate, 44100);
    assert_eq!(enc.config.layout, Channels::Mono.to_layout());
    assert!(!enc.config.global_header);
    assert_eq!(enc.config.frame_size, 960);
    let _ = SampleRate::Hz48000;
}

#[test]
fn the_trim_window_is_inclusive_and_exact() {
    let tb = Rational::new(1, 1000);
    let trim = Some((Duration::from_secs(3), Duration::from_secs(6)));
    assert!(!in_trim(2999, tb, trim));
    assert!(in_trim(3000, tb, trim));
    assert!(in_trim(6000, tb, trim));
    assert!(!in_trim(6001, tb, trim));
    assert!(in_trim(0, tb, None));
    assert!(!in_trim(-1, tb, None));
    assert!(!in_trim(i64::MIN, tb, None));
    assert_eq!(trim_start_ts(Rational::new(1, 90000), trim), 270_000);
    assert_eq!(trim_start_ts(tb, None), 0);
}

#[test]
fn the_output_span_is_clamped_to_the_input() {
    let total = Duration::from_secs(10);
    assert_eq!(output_span(None, total), total);
    assert_eq!(output_span(Some((Duration::from_secs(3), Duration::from_secs(6))), total), Duration::from_secs(3));
    assert_eq!(output_span(Some((Duration::from_secs(8), Duration::from_secs(60))), total), Duration::from_secs(2));
    assert_eq!(output_span(Some((Duration::from_secs(12), Duration::from_secs(20))), total), Duration::zero());
}

#[test]
fn kept_frames_and_packets_are_rebased_to_zero() {
    let mut f = Frame::video(16, 16, PixelFormat::Yuv420p, 4000, i64::MIN);
    rebase_frame_pts(&mut f, 3000);
    assert_eq!(f.pts(), Some(1000));
    let mut g = Frame::video(16, 16, PixelFormat::Yuv420p, 10, 3500);
    rebase_frame_pts(&mut g, 3000);
    assert_eq!(g.pts(), Some(500));
    let mut p = Packet::new(1, 144_000, i64::MIN, 1024, vec![]);
    prepare_copied_packet(&mut p, 144_000, 1);
    assert_eq!((p.pts(), p.dts(), p.stream_index()), (0, i64::MIN, 1));
}

fn audio_params() -> CodecParameters {
    CodecParameters {
        kind: StreamKind::Audio,
        codec_id: AudioCodec::Aac.codec_id(),
        width: 0,
        height: 0,
        format: 8,
        sample_rate: 48000,
        ch_layout: Channels::Stereo.to_layout(),
        framerate: Rational::new(0, 0),
        time_base: Rational::new(1, 48000),
        avg_frame_rate: Rational::new(0, 0),
    }
}

#[test]
fn a_trimmed_plan_seeks_the_video_and_rebases_both_streams() {
    let reader = MediaReader::open(vec![video_params(), audio_params()], 20_000_000, BestStreams { video: Some(0), audio: Some(1), data: None, subtitle: None, attachment: None, unknown: None });
    let opts = options(Transcoder::builder().trim(Duration::from_secs(3), Duration::from_secs(6)));
    let plan = plan_transcode(&opts, &reader, true, true, AudioCodec::Aac.codec_id()).unwrap();
    assert_eq!(plan.selection, StreamSelection { video: Some(0), audio: Some(1) });
    assert_eq!(plan.audio_route, Some(AudioRoute::Copy));
    assert_eq!(plan.audio_codec, None);
    assert_eq!((plan.video_start_ts, plan.audio_start_ts), (3000, 144_000));
    assert_eq!(plan.span, Duration::from_secs(3));
    assert_eq!(plan.seek, Some(SeekRequest { stream_index: 0, ts: 3000 }));
}

#[test]
fn an_untrimmed_audio_only_plan_re_encodes_when_the_container_refuses_the_codec() {
    let reader = MediaReader::open(vec![video_params(), audio_params()], 0, BestStreams { video: Some(0), audio: Some(1), data: None, subtitle: None, attachment: None, unknown: None });
    let opts = options(Transcoder::builder().drop_video());
    let plan = plan_transcode(&opts, &reader, false, false, AudioCodec::Mp3.codec_id()).unwrap();
    assert_eq!(plan.selection, StreamSelection { video: None, audio: Some(1) });
    assert_eq!(plan.audio_route, Some(AudioRoute::Reencode));
    assert_eq!(plan.audio_codec, Some(AudioCodec::Mp3));
    assert_eq!(plan.video_time_base, Rational::new(1, 1));
    assert_eq!(plan.seek, None);
    assert_eq!(plan.span, Duration::zero());
    let video_refused = options(Transcoder::builder());
    assert!(matches!(
        plan_transcode(&video_refused, &reader, false, true, 0),
        Err(Error::InvalidConfig(_))
    ));
}

#[test]
fn every_kept_timestamp_rebases_to_zero_or_later() {
    for (num, den) in [(1, 1000), (1, 90000), (1001, 30000), (1, 3)] {
        let tb = Rational::new(num, den);
        let trim = Some((Duration::from_millis(2500), Duration::from_secs(4)));
        let start = trim_start_ts(tb, trim);
        for ts in -10i64..400_000 {
            if in_trim(ts, tb, trim) {
                assert!(ts - start >= 0, "ts {ts} in {num}/{den}");
            }
        }
    }
}

#[test]
fn the_consumer_counts_frames_and_picks_who_reports_progress() {
    let mut with_video = ConsumerState::new(true);
    assert!(with_video.on_work(WorkKind::VideoFrame, 2));
    assert!(!with_video.on_work(WorkKind::AudioFrame, 0));
    assert!(!with_video.on_work(WorkKind::AudioPacket, 0));
    with_video.on_flushed(3);
    assert_eq!(with_video.frames, 5);
    let mut audio_only = ConsumerState::new(false);
    assert!(audio_only.on_work(WorkKind::AudioFrame, 0));
    assert_eq!(audio_only.frames, 0);
}
