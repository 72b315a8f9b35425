use media::codec::decoder::{CodecParameters, Decoder};
use media::codec::encoder::{AudioEncoder, AudioEncoderCaps, AudioChunk, VideoEncoder};
use media::error::Error;
use media::frame::Frame;
use media::rational::{Bitrate, Framerate, Rational};
use media::types::{
    AudioCodec, ChannelLayout, Channels, H264Preset, PixelFormat, SampleFormat, SampleRate, StreamKind, VideoCodec,
};

#[test]
fn zero_resolution_is_unsupported() {
    let result = VideoEncoder::builder().codec(VideoCodec::H264).resolution(0, 720).build();
    assert!(matches!(result, Err(Error::UnsupportedResolution { width: 0, height: 720 })));
}

#[test]
fn out_of_i32_range_resolution_is_unsupported_not_wrapped() {
    let result = VideoEncoder::builder().codec(VideoCodec::H264).resolution(u32::MAX, 480).build();
    assert!(matches!(result, Err(Error::UnsupportedResolution { width: i32::MAX, height: 480 })));
}

#[test]
fn video_builder_requires_codec_and_resolution() {
    assert!(matches!(
        VideoEncoder::builder().resolution(640, 480).build(),
        Err(Error::InvalidConfig("video encoder requires a codec"))
    ));
    assert!(matches!(
        VideoEncoder::builder().codec(VideoCodec::Vp9).build(),
        Err(Error::InvalidConfig("video encoder requires a resolution"))
    ));
}

#[test]
fn video_defaults_resolve_to_25fps_yuv420p() {
    let enc = VideoEncoder::builder()
        .codec(VideoCodec::H264)
        .resolution(1280, 720)
        .preset(H264Preset::Fast)
        .gop_size(u32::MAX)
        .build()
        .unwrap();
    let c = enc.config();
    assert_eq!((c.width, c.height), (1280, 720));
    assert_eq!(c.pix_fmt, PixelFormat::Yuv420p);
    assert_eq!(c.framerate, Framerate(Rational::new(25, 1)));
    assert_eq!(c.time_base, Rational::new(1, 25));
    assert_eq!(enc.time_base(), Rational::new(1, 25));
    assert_eq!(c.gop_size, i32::MAX);
    assert_eq!(c.preset, Some(H264Preset::Fast));
    assert!(c.global_header);
}

#[test]
fn x26x_options_apply_only_to_h264_and_h265() {
    let enc = VideoEncoder::builder()
        .codec(VideoCodec::Vp9)
        .resolution(320, 240)
        .preset(H264Preset::Slow)
        .time_base(Rational::new(1, 1000))
        .build()
        .unwrap();
    assert_eq!(enc.config().preset, None);
    assert_eq!(enc.config().time_base, Rational::new(1, 1000));
    assert_eq!(enc.config().gop_size, 12);
}

fn audio_params(rate: i32) -> CodecParameters {
    CodecParameters {
        kind: StreamKind::Audio,
        codec_id: AudioCodec::Aac.codec_id(),
        width: 0,
        height: 0,
        format: 8,
        sample_rate: rate,
        ch_layout: Channels::Surround51.to_layout(),
        framerate: Rational::new(0, 0),
        time_base: Rational::new(1, rate),
        avg_frame_rate: Rational::new(0, 0),
    }
}

#[test]
fn audio_builder_inherits_from_the_decoder() {
    let dec = Decoder::open(audio_params(48000));
    let caps = AudioEncoderCaps { supported_sample_formats: vec![8, 1], frame_size: 1024, variable_frame_size: false };
    let enc = AudioEncoder::builder()
        .codec(AudioCodec::Aac)
        .bitrate(Bitrate::kbps(128))
        .from_decoder(&dec)
        .build(&caps)
        .unwrap();
    assert_eq!(enc.config.sample_rate, 48000);
    assert_eq!(enc.config.layout, ChannelLayout { nb_channels: 6, mask: 0x60f });
    assert_eq!(enc.config.sample_fmt, 8);
    assert_eq!(enc.config.frame_size, 1024);
    assert_eq!(enc.time_base(), Rational::new(1, 48000));
    assert_eq!(enc.config.bitrate.map(|b| b.as_bps()), Some(128_000));
}

#[test]
fn audio_builder_defaults_and_errors() {
    let caps = AudioEncoderCaps { supported_sample_formats: vec![], frame_size: 0, variable_frame_size: true };
    assert!(matches!(
        AudioEncoder::builder().build(&caps),
        Err(Error::InvalidConfig("audio encoder requires a codec"))
    ));
    let enc = AudioEncoder::builder()
        .codec(AudioCodec::Flac)
        .channels(Channels::Mono)
        .sample_format(SampleFormat::S16)
        .sample_rate(SampleRate::Hz(22050))
        .build(&caps)
        .unwrap();
    assert_eq!(enc.config.sample_rate, 22050);
    assert_eq!(enc.config.layout.nb_channels, 1);
    assert_eq!(enc.config.sample_fmt, 1);
    assert_eq!(enc.config.frame_size, 4096);
}

#[test]
fn audio_chunks_are_full_contiguous_and_conserve_samples() {
    let caps = AudioEncoderCaps { supported_sample_formats: vec![8], frame_size: 1024, variable_frame_size: false };
    let mut enc = AudioEncoder::builder().codec(AudioCodec::Aac).build(&caps).unwrap();
    let frame = Frame::audio(SampleFormat::Fltp, 1500, 44100, Channels::Stereo.to_layout(), 0, 0);
    let first = enc.encode(&frame, 1500).unwrap();
    assert_eq!(first, vec![AudioChunk { nb_samples: 1024, pts: 0 }]);
    assert_eq!(enc.fifo_samples, 476);
    let second = enc.encode(&frame, 1500).unwrap();
    assert_eq!(second, vec![AudioChunk { nb_samples: 1024, pts: 1024 }]);
    let tail = enc.flush(100).unwrap();
    assert_eq!(
        tail,
        vec![AudioChunk { nb_samples: 1024, pts: 2048 }, AudioChunk { nb_samples: 28, pts: 3072 }]
    );
    assert_eq!(enc.fifo_samples, 0);
    let total: i32 = first.iter().chain(second.iter()).chain(tail.iter()).map(|c| c.nb_samples).sum();
    assert_eq!(total, 3100);
}

#[test]
fn pushing_samples_before_any_frame_is_refused() {
    let caps = AudioEncoderCaps { supported_sample_formats: vec![], frame_size: 512, variable_frame_size: false };
    let mut enc = AudioEncoder::builder().codec(AudioCodec::Opus).build(&caps).unwrap();
    assert!(matches!(enc.push_resampled(10), Err(Error::InvalidConfig("audio encoder has no input yet"))));
    assert_eq!(enc.flush(0).unwrap(), vec![]);
}

#[test]
fn the_resampler_takes_the_first_frames_real_rate() {
    let caps = AudioEncoderCaps { supported_sample_formats: vec![8], frame_size: 1024, variable_frame_size: false };
    let mut enc = AudioEncoder::builder().codec(AudioCodec::Aac).sample_rate(SampleRate::Hz48000).build(&caps).unwrap();
    let slow = Frame::audio(SampleFormat::S16, 100, 22050, Channels::Mono.to_layout(), 0, 0);
    enc.ensure_resampler(&slow);
    let r = enc.resampler.unwrap();
    assert_eq!((r.in_fmt, r.in_rate, r.out_rate), (1, 22050, 48000));
    let fast = Frame::audio(SampleFormat::S16, 100, 96000, Channels::Mono.to_layout(), 0, 0);
    enc.ensure_resampler(&fast);
    assert_eq!(enc.resampler.unwrap().in_rate, 22050);
}

#[test]
fn flushing_an_unused_encoder_yields_nothing() {
    let caps = AudioEncoderCaps { supported_sample_formats: vec![], frame_size: 1024, variable_frame_size: false };
    let mut enc = AudioEncoder::builder().codec(AudioCodec::Aac).build(&caps).unwrap();
    assert_eq!(enc.flush(500).unwrap(), vec![]);
}
