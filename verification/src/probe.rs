//! Quick inspection of a media file without decoding: [`probe`].

use vstd::prelude::*;
use crate::codec::decoder::CodecParameters;
use crate::error::{Error, Result};
use crate::format::reader::MediaReader;
use crate::time::Duration;
use crate::types::{AudioCodec, StreamKind, VideoCodec, spec_audio_codec_id, spec_video_codec_id};

verus! {

/// Per-stream metadata.
#[derive(Clone, Copy, Debug, PartialEq, Eq, Structural)]
pub struct StreamInfo {
    /// The stream's index within the container.
    pub index: usize,
    /// The stream's media kind.
    pub kind: StreamKind,
    /// Width in pixels (video; `0` otherwise).
    pub width: u32,
    /// Height in pixels (video; `0` otherwise).
    pub height: u32,
    /// Sample rate in Hz (audio; `0` otherwise).
    pub sample_rate: u32,
    /// The recognised video codec, if the stream's codec is a known video codec.
    pub video_codec: Option<VideoCodec>,
    /// The recognised audio codec, if the stream's codec is a known audio codec.
    pub audio_codec: Option<AudioCodec>,
}

/// `v` if it is positive, else zero, as a `u32`.
pub open spec fn clamp_non_negative(v: i32) -> u32 {
    if v > 0 {
        v as u32
    } else {
        0
    }
}

/// The video codec whose codec id is `id`, if any.
pub open spec fn video_codec_with_id(id: i32) -> Option<VideoCodec> {
    if exists|v: VideoCodec| spec_video_codec_id(v) == id {
        Some(choose|v: VideoCodec| spec_video_codec_id(v) == id)
    } else {
        None
    }
}

/// The audio codec whose codec id is `id`, if any.
pub open spec fn audio_codec_with_id(id: i32) -> Option<AudioCodec> {
    if exists|a: AudioCodec| spec_audio_codec_id(a) == id {
        Some(choose|a: AudioCodec| spec_audio_codec_id(a) == id)
    } else {
        None
    }
}

/// What [`probe`] reports of stream `index`, given its parameters.
pub open spec fn spec_stream_info(index: usize, p: CodecParameters) -> StreamInfo {
    StreamInfo {
        index,
        kind: p.kind,
        width: clamp_non_negative(p.width),
        height: clamp_non_negative(p.height),
        sample_rate: clamp_non_negative(p.sample_rate),
        video_codec: video_codec_with_id(p.codec_id),
        audio_codec: audio_codec_with_id(p.codec_id),
    }
}

/// The position of the first stream of `kind` in `streams`, if any.
pub open spec fn first_of_kind(streams: Seq<StreamInfo>, kind: StreamKind) -> Option<int> {
    if exists|i: int| 0 <= i < streams.len() && streams[i].kind == kind {
        Some(
            choose|i: int|
                0 <= i < streams.len() && streams[i].kind == kind && forall|j: int|
                    0 <= j < i ==> streams[j].kind != kind,
        )
    } else {
        None
    }
}

/// Container-level metadata returned by [`probe`].
#[derive(Clone, Debug)]
pub struct MediaInfo {
    duration: Duration,
    streams: Vec<StreamInfo>,
}

impl MediaInfo {
    /// The reported duration.
    pub closed spec fn spec_duration(&self) -> nat {
        self.duration@
    }

    /// The reported streams.
    pub closed spec fn spec_streams(&self) -> Seq<StreamInfo> {
        self.streams@
    }

    /// Metadata with the given duration and streams.
    pub fn new(duration: Duration, streams: Vec<StreamInfo>) -> (m: MediaInfo)
        ensures
            m.spec_duration() == duration@,
            m.spec_streams() == streams@,
    {
        MediaInfo { duration, streams }
    }

    /// The container's estimated duration.
    pub fn duration(&self) -> (d: Duration)
        ensures
            d@ == self.spec_duration(),
    {
        self.duration
    }

    /// The number of streams.
    pub fn stream_count(&self) -> (n: usize)
        ensures
            n == self.spec_streams().len(),
    {
        self.streams.len()
    }

    /// All streams.
    pub fn streams(&self) -> (s: &[StreamInfo])
        ensures
            s@ == self.spec_streams(),
    {
        self.streams.as_slice()
    }

    /// The first stream of `kind`, if any.
    fn first(&self, kind: StreamKind) -> (r: Option<&StreamInfo>)
        ensures
            match first_of_kind(self.spec_streams(), kind) {
                Some(i) => r == Some(&self.spec_streams()[i]),
                None => r is None,
            },
    {
        let mut i: usize = 0;
        while i < self.streams.len()
            invariant
                i <= self.streams.len(),
                forall|j: int| 0 <= j < i ==> self.streams@[j].kind != kind,
            decreases self.streams.len() - i,
        {
            if self.streams[i].kind == kind {
                proof {
                    let s = self.spec_streams();
                    assert(0 <= i < s.len() && s[i as int].kind == kind);
                    let c = choose|k: int|
                        0 <= k < s.len() && s[k].kind == kind && forall|j: int|
                            0 <= j < k ==> s[j].kind != kind;
                    assert(c == i as int) by {
                        if c < i {
                            assert(s[c].kind != kind);
                        } else if c > i {
                            assert(s[i as int].kind != kind);
                        }
                    }
                }
                return Some(&self.streams[i]);
            }
            i += 1;
        }
        None
    }

    /// The first video stream, if any.
    pub fn video(&self) -> (r: Option<&StreamInfo>)
        ensures
            match first_of_kind(self.spec_streams(), StreamKind::Video) {
                Some(i) => r == Some(&self.spec_streams()[i]),
                None => r is None,
            },
    {
        self.first(StreamKind::Video)
    }

    /// The first audio stream, if any.
    pub fn audio(&self) -> (r: Option<&StreamInfo>)
        ensures
            match first_of_kind(self.spec_streams(), StreamKind::Audio) {
                Some(i) => r == Some(&self.spec_streams()[i]),
                None => r is None,
            },
    {
        self.first(StreamKind::Audio)
    }
}

/// `v` if it is positive, else zero.
fn clamp_u32(v: i32) -> (r: u32)
    ensures
        r == clamp_non_negative(v),
{
    if v > 0 {
        v as u32
    } else {
        0
    }
}

/// The container and stream metadata of an opened file, without decoding any frames: the
/// container's duration and, for each stream in order, its kind, geometry, sample rate and
/// recognised codec.
pub fn probe(reader: &MediaReader) -> (r: Result<MediaInfo>)
    ensures
        r matches Ok(info) && info.spec_duration() == (if reader.spec_duration_us() > 0 {
            reader.spec_duration_us() * 1000
        } else {
            0
        }) && info.spec_streams().len() == reader.spec_streams().len() && forall|i: int|
            0 <= i < info.spec_streams().len() ==> #[trigger] info.spec_streams()[i]
                == spec_stream_info(i as usize, reader.spec_streams()[i]),
{
    let count = reader.stream_count();
    let mut streams: Vec<StreamInfo> = Vec::new();
    let mut index: usize = 0;
    while index < count
        invariant
            count == reader.spec_streams().len(),
            index <= count,
            streams@.len() == index,
            forall|i: int|
                0 <= i < index ==> #[trigger] streams@[i] == spec_stream_info(
                    i as usize,
                    reader.spec_streams()[i],
                ),
        decreases count - index,
    {
        let p = match reader.stream_params(index) {
            Ok(p) => p,
            Err(e) => return Err(e),
        };
        let video_codec = VideoCodec::from_codec_id(p.codec_id);
        let audio_codec = AudioCodec::from_codec_id(p.codec_id);
        proof {
            lemma_video_codec_lookup(p.codec_id, video_codec);
            lemma_audio_codec_lookup(p.codec_id, audio_codec);
        }
        streams.push(
            StreamInfo {
                index,
                kind: p.kind,
                width: clamp_u32(p.width),
                height: clamp_u32(p.height),
                sample_rate: clamp_u32(p.sample_rate),
                video_codec,
                audio_codec,
            },
        );
        index += 1;
    }
    Ok(MediaInfo { duration: reader.duration(), streams })
}

/// A video codec lookup by id agrees with [`video_codec_with_id`]: no two codecs share an id.
pub proof fn lemma_video_codec_lookup(id: i32, v: Option<VideoCodec>)
    requires
        v matches Some(c) ==> spec_video_codec_id(c) == id,
        v is None ==> forall|c: VideoCodec| spec_video_codec_id(c) != id,
    ensures
        v == video_codec_with_id(id),
{
    if let Some(c) = v {
        let w = choose|x: VideoCodec| spec_video_codec_id(x) == id;
        assert(spec_video_codec_id(c) == id);
        assert(w == c) by {
            assert(spec_video_codec_id(w) == spec_video_codec_id(c));
            match w {
                VideoCodec::H264 => {},
                VideoCodec::H265 => {},
                VideoCodec::Vp9 => {},
                VideoCodec::Av1 => {},
                VideoCodec::Mpeg4 => {},
            }
        }
    }
}

/// An audio codec lookup by id agrees with [`audio_codec_with_id`]: no two codecs share an id.
pub proof fn lemma_audio_codec_lookup(id: i32, a: Option<AudioCodec>)
    requires
        a matches Some(c) ==> spec_audio_codec_id(c) == id,
        a is None ==> forall|c: AudioCodec| spec_audio_codec_id(c) != id,
    ensures
        a == audio_codec_with_id(id),
{
    if let Some(c) = a {
        let w = choose|x: AudioCodec| spec_audio_codec_id(x) == id;
        assert(spec_audio_codec_id(c) == id);
        assert(w == c) by {
            assert(spec_audio_codec_id(w) == spec_audio_codec_id(c));
            match w {
                AudioCodec::PcmS16le => {},
                AudioCodec::Mp3 => {},
                AudioCodec::Aac => {},
                AudioCodec::Vorbis => {},
                AudioCodec::Flac => {},
                AudioCodec::Opus => {},
            }
        }
    }
}

/// Every known codec is recognised again from its own codec id.
pub proof fn lemma_codec_id_round_trip(v: VideoCodec, a: AudioCodec)
    ensures
        video_codec_with_id(spec_video_codec_id(v)) == Some(v),
        audio_codec_with_id(spec_audio_codec_id(a)) == Some(a),
{
    lemma_video_codec_lookup(spec_video_codec_id(v), Some(v));
    lemma_audio_codec_lookup(spec_audio_codec_id(a), Some(a));
}

} // verus!
