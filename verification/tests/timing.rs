use media::rational::{rescale_q, rescale_rnd, Bitrate, Framerate, Rational};
use media::time::Duration;
use media::types::{AudioCodec, PixelFormat, SampleFormat, StreamKind, VideoCodec, Channels, H264Preset, H264Profile, SampleRate};

#[test]
fn rescaling_rounds_halves_away_from_zero() {
    assert_eq!(rescale_rnd(3, 1, 2), 2);
    assert_eq!(rescale_rnd(-3, 1, 2), -2);
    assert_eq!(rescale_rnd(5, 0, 3), 0);
    assert_eq!(rescale_rnd(1, 1, 0), i64::MIN);
    assert_eq!(rescale_rnd(i64::MAX, 2, 1), i64::MIN);
    assert_eq!(rescale_q(90_000, Rational::new(1, 90_000), Rational::new(1, 1000)), 1000);
    assert_eq!(rescale_q(1, Rational::new(1, 3), Rational::new(1, 2)), 1);
}

#[test]
fn rescaling_into_the_same_base_is_the_identity() {
    for ts in [0i64, 1, -1, 12345, i64::MAX, i64::MIN + 1] {
        assert_eq!(rescale_q(ts, Rational::new(1001, 30000), Rational::new(1001, 30000)), ts);
    }
    // The sentinel itself is treated as -i64::MAX.
    assert_eq!(rescale_q(i64::MIN, Rational::new(1, 1), Rational::new(1, 1)), i64::MIN + 1);
}

#[test]
fn durations_convert_to_and_from_ticks() {
    let tb = Rational::new(1, 30);
    assert_eq!(tb.ts_from_duration(Duration::from_millis(50)), 2);
    assert_eq!(tb.ts_from_duration(Duration::from_millis(49)), 1);
    assert_eq!(tb.duration_from_ts(3), Duration::from_millis(100));
    assert_eq!(tb.duration_from_ts(-4), Duration::zero());
    assert!(Rational::new(1, 1000).ts_after_secs(2001, 2));
    assert!(!Rational::new(1, 1000).ts_after_secs(2000, 2));
    assert_eq!(Rational::new(2, 3).invert(), Rational::new(3, 2));
    assert_eq!(Framerate::fps(30).time_base(), Rational::new(1, 30));
}

#[test]
fn durations_split_into_seconds_and_nanos() {
    let d = Duration::new(3, 250_000_000);
    assert_eq!(d.as_secs(), 3);
    assert_eq!(d.subsec_nanos(), 250_000_000);
    assert_eq!(d.as_millis(), 3250);
    assert_eq!(Duration::from_nanos(1_500_000_000), Duration::from_millis(1500));
    assert_eq!(Duration::from_micros(2).as_nanos(), 2000);
}

#[test]
fn bit_rates_scale_by_units() {
    assert_eq!(Bitrate::bps(800).as_bps(), 800);
    assert_eq!(Bitrate::kbps(192).as_bps(), 192_000);
    assert_eq!(Bitrate::mbps(u32::MAX).as_bps(), 4_294_967_295_000_000);
}

#[test]
fn formats_and_codecs_round_trip_through_ffmpeg_numbers() {
    for f in [PixelFormat::Yuv420p, PixelFormat::Rgb24, PixelFormat::Nv12, PixelFormat::Bgra] {
        assert_eq!(PixelFormat::from_av(f.to_av()), f);
    }
    assert_eq!(PixelFormat::from_av(999), PixelFormat::Other(999));
    for f in [SampleFormat::U8, SampleFormat::S16, SampleFormat::Fltp, SampleFormat::Dblp] {
        assert_eq!(SampleFormat::from_av(f.to_av()), f);
    }
    for c in [VideoCodec::H264, VideoCodec::H265, VideoCodec::Vp9, VideoCodec::Av1, VideoCodec::Mpeg4] {
        assert_eq!(VideoCodec::from_codec_id(c.codec_id()), Some(c));
    }
    for c in [AudioCodec::PcmS16le, AudioCodec::Mp3, AudioCodec::Aac, AudioCodec::Vorbis, AudioCodec::Flac, AudioCodec::Opus] {
        assert_eq!(AudioCodec::from_codec_id(c.codec_id()), Some(c));
    }
    assert_eq!(VideoCodec::from_codec_id(-3), None);
    assert_eq!(VideoCodec::H264.encoder_name(), "libx264");
    assert_eq!(AudioCodec::Mp3.encoder_name(), "libmp3lame");
    assert!(VideoCodec::H265.takes_x26x_options());
    assert!(!VideoCodec::Av1.takes_x26x_options());
    assert_eq!(StreamKind::from_av(StreamKind::Audio.to_av()), StreamKind::Audio);
    assert_eq!(Channels::Stereo.to_layout().count(), 2);
    assert_eq!(SampleRate::Hz(8000).hz(), 8000);
    assert_eq!(H264Preset::Veryfast.as_str(), "veryfast");
    assert_eq!(H264Profile::High.as_str(), "high");
}
