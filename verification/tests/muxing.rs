use media::codec::decoder::CodecParameters;
use media::codec::encoder::{accepts_variable_frame_size, with_global_header_flag, VideoEncoder};
use media::error::Error;
use media::format::reader::{best_stream_index, read_status, BestStreams, MediaReader, SeekRequest};
use media::format::writer::{format_needs_file, format_wants_global_header, MediaWriter};
use media::packet::Packet;
use media::probe::probe;
use media::rational::Rational;
use media::time::Duration;
use media::types::{AudioCodec, ChannelLayout, StreamKind, VideoCodec};

fn video_stream() -> CodecParameters {
    CodecParameters {
        kind: StreamKind::Video,
        codec_id: VideoCodec::H264.codec_id(),
        width: 1920,
        height: 1080,
        format: 0,
        sample_rate: 0,
        ch_layout: ChannelLayout { nb_channels: 0, mask: 0 },
        framerate: Rational::new(30, 1),
        time_base: Rational::new(1, 15360),
        avg_frame_rate: Rational::new(30, 1),
    }
}

fn audio_stream() -> CodecParameters {
    CodecParameters {
        kind: StreamKind::Audio,
        codec_id: AudioCodec::Aac.codec_id(),
        width: -1,
        height: 0,
        format: 8,
        sample_rate: 48000,
        ch_layout: ChannelLayout { nb_channels: 2, mask: 3 },
        framerate: Rational::new(0, 0),
        time_base: Rational::new(1, 48000),
        avg_frame_rate: Rational::new(0, 0),
    }
}

fn reader() -> MediaReader {
    MediaReader::open(vec![video_stream(), audio_stream()], 10_500_000, BestStreams { video: Some(0), audio: Some(1), data: None, subtitle: None, attachment: None, unknown: None })
}

#[test]
fn the_reader_reports_its_streams() {
    let r = reader();
    assert_eq!(r.stream_count(), 2);
    assert_eq!(r.duration(), Duration::from_millis(10_500));
    assert_eq!(r.best_stream(StreamKind::Audio).unwrap(), 1);
    assert_eq!(r.stream_kind(0).unwrap(), StreamKind::Video);
    assert_eq!(r.stream_time_base(1).unwrap(), Rational::new(1, 48000));
    assert!(matches!(r.stream_kind(2), Err(Error::StreamOutOfRange(2))));
    let none = MediaReader::open(vec![], i64::MIN, BestStreams { video: None, audio: None, data: None, subtitle: None, attachment: None, unknown: None });
    assert_eq!(none.duration(), Duration::zero());
    assert!(matches!(none.best_stream(StreamKind::Video), Err(Error::NoVideoStream)));
    assert!(matches!(none.best_stream(StreamKind::Audio), Err(Error::NoAudioStream)));
}

#[test]
fn seeking_rounds_to_the_nearest_tick() {
    let r = reader();
    assert_eq!(r.seek(0, Duration::from_secs(2)).unwrap(), SeekRequest { stream_index: 0, ts: 30720 });
    assert_eq!(r.seek(1, Duration::from_micros(10)).unwrap(), SeekRequest { stream_index: 1, ts: 0 });
    assert_eq!(r.seek(1, Duration::from_micros(11)).unwrap(), SeekRequest { stream_index: 1, ts: 1 });
    assert!(matches!(r.seek(5, Duration::zero()), Err(Error::StreamOutOfRange(5))));
    let s = r.stream(1);
    assert_eq!(s.index(), 1);
    assert_eq!(s.kind().unwrap(), StreamKind::Audio);
    assert_eq!(s.decoder().unwrap().sample_rate(), 48000);
}

#[test]
fn probing_reports_every_stream() {
    let info = probe(&reader()).unwrap();
    assert_eq!(info.stream_count(), 2);
    assert_eq!(info.duration(), Duration::from_millis(10_500));
    let v = info.video().unwrap();
    assert_eq!((v.index, v.width, v.height), (0, 1920, 1080));
    assert_eq!(v.video_codec, Some(VideoCodec::H264));
    assert_eq!(v.audio_codec, None);
    let a = info.audio().unwrap();
    assert_eq!((a.index, a.width, a.sample_rate), (1, 0, 48000));
    assert_eq!(a.audio_codec, Some(AudioCodec::Aac));
    assert_eq!(info.streams().len(), 2);
    let silent = probe(&MediaReader::open(vec![video_stream()], 0, BestStreams { video: Some(0), audio: None, data: None, subtitle: None, attachment: None, unknown: None })).unwrap();
    assert!(silent.audio().is_none());
    assert_eq!(silent.duration(), Duration::zero());
}

#[test]
fn packets_before_the_header_are_refused() {
    let mut w = MediaWriter::create(true);
    assert!(w.wants_global_header());
    let enc = VideoEncoder::builder().codec(VideoCodec::H264).resolution(64, 64).build().unwrap();
    assert_eq!(w.add_stream_from_encoder(&enc).unwrap(), 0);
    let mut p = Packet::new(0, 1, 1, 1, vec![9]);
    assert!(matches!(
        w.write_packet(&mut p),
        Err(Error::InvalidConfig("write_header must be called before write_packet"))
    ));
    assert_eq!(p.pts(), 1);
}

#[test]
fn written_packets_are_rescaled_to_the_muxer_time_base() {
    let mut w = MediaWriter::create(false);
    let enc = VideoEncoder::builder().codec(VideoCodec::H264).resolution(64, 64).build().unwrap();
    assert_eq!(w.add_stream_from_encoder(&enc).unwrap(), 0);
    assert_eq!(w.add_stream_copy(&reader(), 1).unwrap(), 1);
    assert!(matches!(w.add_stream_copy(&reader(), 7), Err(Error::StreamOutOfRange(7))));
    w.write_header(vec![Rational::new(1, 12800), Rational::new(1, 48000)]).unwrap();
    // 3 frames at 1/25 s are 1536 ticks of 1/12800 s.
    let mut p = Packet::new(0, 3, 2, 1, vec![1, 2]);
    w.write_packet(&mut p).unwrap();
    assert_eq!((p.pts(), p.dts(), p.duration()), (1536, 1024, 512));
    assert_eq!(p.data(), &[1, 2]);
    // Copied audio keeps its ticks: both sides are 1/48000.
    let mut a = Packet::new(1, 960, 960, 960, vec![]);
    w.write_packet(&mut a).unwrap();
    assert_eq!((a.pts(), a.dts(), a.duration()), (960, 960, 960));
    let mut stray = Packet::new(2, 0, 0, 0, vec![]);
    assert!(matches!(w.write_packet(&mut stray), Err(Error::StreamOutOfRange(2))));
}

#[test]
fn unknown_timestamps_survive_rescaling_and_offsets() {
    let mut p = Packet::new(0, i64::MIN, 100, 0, vec![]);
    p.rescale_ts(Rational::new(1, 100), Rational::new(1, 1000));
    assert_eq!((p.pts(), p.dts(), p.duration()), (i64::MIN, 1000, 0));
    p.offset_timestamps(400);
    assert_eq!((p.pts(), p.dts()), (i64::MIN, 600));
    p.set_stream_index(3);
    assert_eq!(p.stream_index(), 3);
}

#[test]
fn format_and_codec_flags_are_read_bit_by_bit() {
    assert!(format_wants_global_header(0x0040));
    assert!(format_wants_global_header(0x0041));
    assert!(!format_wants_global_header(0x0001));
    assert!(format_needs_file(0x0040));
    assert!(!format_needs_file(0x0001));
    assert_eq!(with_global_header_flag(0x3), 0x0040_0003);
    assert_eq!(with_global_header_flag(0x0040_0000), 0x0040_0000);
    assert!(accepts_variable_frame_size(0x0001_0000));
    assert!(!accepts_variable_frame_size(0x0000_ffff));
    assert_eq!(best_stream_index(-1381258232), None);
    assert_eq!(best_stream_index(2), Some(2));
}

#[test]
fn read_codes_distinguish_packets_end_and_errors() {
    assert!(matches!(read_status(0), Ok(true)));
    assert!(matches!(read_status(media::error::AVERROR_EOF), Ok(false)));
    assert!(matches!(read_status(-5), Err(Error::Internal { code: -5, .. })));
}

#[test]
fn best_streams_of_every_kind_and_time_base_checks() {
    let mut subtitle = video_stream();
    subtitle.kind = StreamKind::Subtitle;
    let best = BestStreams { video: Some(0), audio: None, data: None, subtitle: Some(1), attachment: None, unknown: None };
    let r = MediaReader::open(vec![video_stream(), subtitle], 0, best);
    assert_eq!(r.best_stream(StreamKind::Subtitle).unwrap(), 1);
    assert!(matches!(r.best_stream(StreamKind::Data), Err(Error::NoVideoStream)));
    assert!(matches!(r.best_stream(StreamKind::Audio), Err(Error::NoAudioStream)));
    assert!(r.time_bases_valid());
    let mut broken = audio_stream();
    broken.time_base = Rational::new(1, 0);
    let none = BestStreams { video: None, audio: None, data: None, subtitle: None, attachment: None, unknown: None };
    assert!(!MediaReader::open(vec![video_stream(), broken], 0, none).time_bases_valid());
}
