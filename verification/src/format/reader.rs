//! The demuxer side: a media file's streams, as the demuxer reports them.

use vstd::prelude::*;
use crate::codec::decoder::{CodecParameters, Decoder};
use crate::error::{check, is_internal_code, Error, Result, AVERROR_EOF};
use crate::rational::{Rational, spec_ts_from_nanos};
use crate::time::Duration;
use crate::types::StreamKind;

verus! {

/// The stream the demuxer ranks best for each media kind (`av_find_best_stream`), if any.
#[derive(Clone, Copy, Debug, PartialEq, Eq, Structural)]
pub struct BestStreams {
    pub video: Option<usize>,
    pub audio: Option<usize>,
    pub data: Option<usize>,
    pub subtitle: Option<usize>,
    pub attachment: Option<usize>,
    pub unknown: Option<usize>,
}

impl BestStreams {
    /// The best stream of `kind`.
    pub open spec fn of(self, kind: StreamKind) -> Option<usize> {
        match kind {
            StreamKind::Video => self.video,
            StreamKind::Audio => self.audio,
            StreamKind::Data => self.data,
            StreamKind::Subtitle => self.subtitle,
            StreamKind::Attachment => self.attachment,
            StreamKind::Unknown => self.unknown,
        }
    }

    /// Each best stream is one of `streams`, of its kind.
    pub open spec fn valid_for(self, streams: Seq<CodecParameters>) -> bool {
        forall|k: StreamKind| #[trigger] self.of(k) matches Some(i) ==> i < streams.len()
            && streams[i as int].kind == k
    }

    /// The best stream of `kind`.
    pub fn get(&self, kind: StreamKind) -> (i: Option<usize>)
        ensures
            i == self.of(kind),
    {
        match kind {
            StreamKind::Video => self.video,
            StreamKind::Audio => self.audio,
            StreamKind::Data => self.data,
            StreamKind::Subtitle => self.subtitle,
            StreamKind::Attachment => self.attachment,
            StreamKind::Unknown => self.unknown,
        }
    }
}

/// An opened media file: the parameters of each stream, the container's duration (in
/// microseconds, `i64::MIN` when unknown), and the stream the demuxer ranks best for each
/// media kind.
#[derive(Debug)]
pub struct MediaReader {
    streams: Vec<CodecParameters>,
    duration_us: i64,
    best: BestStreams,
}

/// A request to reposition the demuxer: resume reading stream `stream_index` at the keyframe
/// at or before `ts` (in that stream's time base).
#[derive(Clone, Copy, Debug, PartialEq, Eq, Structural)]
pub struct SeekRequest {
    pub stream_index: usize,
    pub ts: i64,
}

impl MediaReader {
    /// The streams' parameters, in container order.
    pub closed spec fn spec_streams(&self) -> Seq<CodecParameters> {
        self.streams@
    }

    /// The container duration in microseconds (`i64::MIN` when unknown).
    pub closed spec fn spec_duration_us(&self) -> i64 {
        self.duration_us
    }

    /// The demuxer's best stream of each kind.
    pub closed spec fn spec_best(&self) -> BestStreams {
        self.best
    }

    /// The demuxer's best video stream.
    pub open spec fn spec_best_video(&self) -> Option<usize> {
        self.spec_best().video
    }

    /// The demuxer's best audio stream.
    pub open spec fn spec_best_audio(&self) -> Option<usize> {
        self.spec_best().audio
    }

    /// The container duration in nanoseconds (zero when unknown).
    pub open spec fn spec_duration_nanos(&self) -> nat {
        if self.spec_duration_us() > 0 {
            (self.spec_duration_us() * 1000) as nat
        } else {
            0
        }
    }

    /// Every stream has a positive time base.
    pub open spec fn wf(&self) -> bool {
        forall|i: int| 0 <= i < self.spec_streams().len() ==> #[trigger] self.spec_streams()[i].time_base.num
            > 0 && self.spec_streams()[i].time_base.den > 0
    }

    /// The demuxer's best stream of each kind is one of the file's streams, of that kind (as
    /// `av_find_best_stream` guarantees).
    #[verifier::type_invariant]
    spec fn best_streams_exist(&self) -> bool {
        self.best.valid_for(self.streams@)
    }

    /// A reader over the streams a demuxer reported, with the demuxer's best stream of each
    /// kind (each one of the streams, of that kind).
    pub fn open(streams: Vec<CodecParameters>, duration_us: i64, best: BestStreams) -> (r: MediaReader)
        requires
            best.valid_for(streams@),
        ensures
            r.spec_streams() == streams@,
            r.spec_duration_us() == duration_us,
            r.spec_best() == best,
    {
        MediaReader { streams, duration_us, best }
    }

    /// `true` when every stream has a positive time base, which the timestamp arithmetic
    /// over the reader ([`MediaReader::seek`], the transcode plan) needs.
    pub fn time_bases_valid(&self) -> (b: bool)
        ensures
            b == self.wf(),
    {
        let mut i: usize = 0;
        while i < self.streams.len()
            invariant
                i <= self.streams@.len(),
                forall|j: int| 0 <= j < i ==> #[trigger] self.spec_streams()[j].time_base.num > 0
                    && self.spec_streams()[j].time_base.den > 0,
            decreases self.streams.len() - i,
        {
            let tb = self.streams[i].time_base;
            if tb.num <= 0 || tb.den <= 0 {
                assert(self.spec_streams()[i as int].time_base == tb);
                return false;
            }
            i = i + 1;
        }
        true
    }

    /// The number of streams in the file.
    pub fn stream_count(&self) -> (n: usize)
        ensures
            n == self.spec_streams().len(),
    {
        self.streams.len()
    }

    /// The container's estimated duration (zero if unknown).
    pub fn duration(&self) -> (d: Duration)
        ensures
            d@ == self.spec_duration_nanos(),
    {
        if self.duration_us > 0 {
            Duration::from_micros(self.duration_us as u64)
        } else {
            Duration::zero()
        }
    }

    /// The index of the best stream of `kind`: errors with [`Error::NoAudioStream`] for audio
    /// and [`Error::NoVideoStream`] for any other kind when there is none.
    pub fn best_stream(&self, kind: StreamKind) -> (r: Result<usize>)
        ensures
            match self.spec_best().of(kind) {
                Some(i) => r == Ok::<usize, Error>(i),
                None => if kind == StreamKind::Audio {
                    r matches Err(Error::NoAudioStream)
                } else {
                    r matches Err(Error::NoVideoStream)
                },
            },
            r matches Ok(i) ==> i < self.spec_streams().len() && self.spec_streams()[i as int].kind
                == kind,
    {
        proof {
            use_type_invariant(self);
        }
        match self.best.get(kind) {
            Some(i) => Ok(i),
            None => match kind {
                StreamKind::Audio => Err(Error::NoAudioStream),
                _ => Err(Error::NoVideoStream),
            },
        }
    }

    /// The parameters of stream `index`.
    pub fn stream_params(&self, index: usize) -> (r: Result<CodecParameters>)
        ensures
            index < self.spec_streams().len() ==> r == Ok::<CodecParameters, Error>(self.spec_streams()[index as int]),
            index >= self.spec_streams().len() ==> (r matches Err(Error::StreamOutOfRange(i)) && i == index),
    {
        if index < self.streams.len() {
            Ok(self.streams[index])
        } else {
            Err(Error::StreamOutOfRange(index))
        }
    }

    /// A handle to stream `index` for inspection or building a decoder.
    pub fn stream(&self, index: usize) -> (s: StreamRef<'_>)
        ensures
            s.spec_index() == index,
            s.spec_reader() == self,
    {
        StreamRef { reader: self, index }
    }

    /// The kind of stream `index`.
    pub fn stream_kind(&self, index: usize) -> (r: Result<StreamKind>)
        ensures
            index < self.spec_streams().len() ==> r == Ok::<StreamKind, Error>(self.spec_streams()[index as int].kind),
            index >= self.spec_streams().len() ==> (r matches Err(Error::StreamOutOfRange(i)) && i == index),
    {
        match self.stream_params(index) {
            Ok(p) => Ok(p.kind),
            Err(e) => Err(e),
        }
    }

    /// The time base of stream `index`.
    pub fn stream_time_base(&self, index: usize) -> (r: Result<Rational>)
        ensures
            index < self.spec_streams().len() ==> r == Ok::<Rational, Error>(self.spec_streams()[index as int].time_base),
            index >= self.spec_streams().len() ==> (r matches Err(Error::StreamOutOfRange(i)) && i == index),
    {
        match self.stream_params(index) {
            Ok(p) => Ok(p.time_base),
            Err(e) => Err(e),
        }
    }

    /// The average frame rate of stream `index` (may be `0/0`).
    pub fn stream_avg_frame_rate(&self, index: usize) -> (r: Result<Rational>)
        ensures
            index < self.spec_streams().len() ==> r == Ok::<Rational, Error>(self.spec_streams()[index as int].avg_frame_rate),
            index >= self.spec_streams().len() ==> (r matches Err(Error::StreamOutOfRange(i)) && i == index),
    {
        match self.stream_params(index) {
            Ok(p) => Ok(p.avg_frame_rate),
            Err(e) => Err(e),
        }
    }

    /// Where to seek so that reading resumes near `at` within stream `stream_index`: `at`
    /// expressed in that stream's time base, rounded to the nearest tick.
    pub fn seek(&self, stream_index: usize, at: Duration) -> (r: Result<SeekRequest>)
        requires
            self.wf(),
        ensures
            stream_index < self.spec_streams().len() ==> r == Ok::<SeekRequest, Error>(SeekRequest {
                stream_index,
                ts: spec_ts_from_nanos(at@, self.spec_streams()[stream_index as int].time_base) as i64,
            }),
            stream_index >= self.spec_streams().len() ==> (r matches Err(Error::StreamOutOfRange(i))
                && i == stream_index),
    {
        let tb = match self.stream_time_base(stream_index) {
            Ok(tb) => tb,
            Err(e) => return Err(e),
        };
        proof {
            assert(self.spec_streams()[stream_index as int].time_base.num > 0);
        }
        Ok(SeekRequest { stream_index, ts: tb.ts_from_duration(at) })
    }
}

/// The stream index `av_find_best_stream` reports in its return code `ret`: none when the
/// code is negative.
pub fn best_stream_index(ret: i32) -> (r: Option<usize>)
    ensures
        ret < 0 ==> r is None,
        ret >= 0 ==> r == Some(ret as usize),
{
    if ret < 0 {
        None
    } else {
        Some(ret as usize)
    }
}

/// Classify the return code of reading one packet (`av_read_frame`): end of input reads as
/// `Ok(false)`, a packet as `Ok(true)`, any other negative code as the error it names.
pub fn read_status(ret: i32) -> (r: Result<bool>)
    ensures
        ret == AVERROR_EOF ==> r == Ok::<bool, Error>(false),
        ret >= 0 ==> r == Ok::<bool, Error>(true),
        ret < 0 && ret != AVERROR_EOF ==> (r matches Err(e) && is_internal_code(e, ret)),
{
    if ret == AVERROR_EOF {
        return Ok(false);
    }
    match check(ret) {
        Ok(()) => Ok(true),
        Err(e) => Err(e),
    }
}

/// A handle to one stream of a [`MediaReader`].
#[derive(Clone, Copy, Debug)]
pub struct StreamRef<'r> {
    reader: &'r MediaReader,
    index: usize,
}

impl<'r> StreamRef<'r> {
    pub closed spec fn spec_index(&self) -> usize {
        self.index
    }

    pub closed spec fn spec_reader(&self) -> &'r MediaReader {
        self.reader
    }

    /// This stream's index.
    pub fn index(&self) -> (i: usize)
        ensures
            i == self.spec_index(),
    {
        self.index
    }

    /// This stream's media kind.
    pub fn kind(&self) -> (r: Result<StreamKind>)
        ensures
            self.spec_index() < self.spec_reader().spec_streams().len() ==> r == Ok::<StreamKind, Error>(
                self.spec_reader().spec_streams()[self.spec_index() as int].kind,
            ),
            self.spec_index() >= self.spec_reader().spec_streams().len() ==> (r matches Err(
                Error::StreamOutOfRange(i),
            ) && i == self.spec_index()),
    {
        self.reader.stream_kind(self.index)
    }

    /// A [`Decoder`] for this stream, configured from its parameters.
    pub fn decoder(&self) -> (r: Result<Decoder>)
        ensures
            self.spec_index() < self.spec_reader().spec_streams().len() ==> (r matches Ok(d)
                && d.spec_params() == self.spec_reader().spec_streams()[self.spec_index() as int]),
            self.spec_index() >= self.spec_reader().spec_streams().len() ==> (r matches Err(
                Error::StreamOutOfRange(i),
            ) && i == self.spec_index()),
    {
        match self.reader.stream_params(self.index) {
            Ok(p) => Ok(Decoder::open(p)),
            Err(e) => Err(e),
        }
    }
}

} // verus!
