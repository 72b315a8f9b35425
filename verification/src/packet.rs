//! Compressed media packets.

use vstd::prelude::*;
use crate::error::AV_NOPTS_VALUE;
use crate::rational::{Rational, rescale_q, spec_rescale_q, i64_min, i64_max};

verus! {

/// A compressed, coded chunk of data belonging to one stream (the output of a demuxer or an
/// encoder, the input to a decoder or a muxer): its stream index, timestamps, duration and
/// byte position (all in the stream's time base; `i64::MIN` marks an unknown timestamp,
/// `-1` an unknown position) and its payload.
#[derive(Debug)]
pub struct Packet {
    stream_index: i32,
    pts: i64,
    dts: i64,
    duration: i64,
    pos: i64,
    data: Vec<u8>,
}

/// The new value of a timestamp shifted earlier by `delta`: unknown timestamps stay unknown.
pub open spec fn shifted(ts: i64, delta: i64) -> int {
    if ts == i64::MIN {
        ts as int
    } else {
        ts - delta
    }
}

/// A timestamp rescaled between time bases: unknown timestamps stay unknown.
pub open spec fn rescaled_ts(ts: i64, src: Rational, dst: Rational) -> int {
    if ts == i64::MIN {
        ts as int
    } else {
        spec_rescale_q(ts as int, src, dst)
    }
}

/// A packet duration rescaled between time bases: only positive durations are rescaled.
pub open spec fn rescaled_duration(d: i64, src: Rational, dst: Rational) -> int {
    if d > 0 {
        spec_rescale_q(d as int, src, dst)
    } else {
        d as int
    }
}

impl Packet {
    /// The raw stream index.
    pub closed spec fn spec_stream_index(&self) -> i32 {
        self.stream_index
    }

    /// The presentation timestamp.
    pub closed spec fn spec_pts(&self) -> i64 {
        self.pts
    }

    /// The decompression timestamp.
    pub closed spec fn spec_dts(&self) -> i64 {
        self.dts
    }

    /// The duration.
    pub closed spec fn spec_duration(&self) -> i64 {
        self.duration
    }

    /// The byte position in the source (`-1` when unknown).
    pub closed spec fn spec_pos(&self) -> i64 {
        self.pos
    }

    /// The payload.
    pub closed spec fn spec_data(&self) -> Seq<u8> {
        self.data@
    }

    /// A packet of stream `stream_index` with the given timestamps, duration and payload, and
    /// an unknown byte position.
    pub fn new(stream_index: i32, pts: i64, dts: i64, duration: i64, data: Vec<u8>) -> (p: Packet)
        ensures
            p.spec_stream_index() == stream_index,
            p.spec_pts() == pts,
            p.spec_dts() == dts,
            p.spec_duration() == duration,
            p.spec_pos() == -1,
            p.spec_data() == data@,
    {
        Packet { stream_index, pts, dts, duration, pos: -1, data }
    }

    /// The index of the stream this packet belongs to.
    pub fn stream_index(&self) -> (i: usize)
        ensures
            i == self.spec_stream_index() as usize,
    {
        self.stream_index as usize
    }

    /// Set the stream index (used when remapping input streams to output streams).
    pub fn set_stream_index(&mut self, index: usize)
        ensures
            final(self).spec_stream_index() == index as i32,
            final(self).spec_pts() == old(self).spec_pts(),
            final(self).spec_dts() == old(self).spec_dts(),
            final(self).spec_duration() == old(self).spec_duration(),
            final(self).spec_pos() == old(self).spec_pos(),
            final(self).spec_data() == old(self).spec_data(),
    {
        self.stream_index = index as i32;
    }

    /// The presentation timestamp, in the packet's stream time base.
    pub fn pts(&self) -> (t: i64)
        ensures
            t == self.spec_pts(),
    {
        self.pts
    }

    /// The decompression timestamp, in the packet's stream time base.
    pub fn dts(&self) -> (t: i64)
        ensures
            t == self.spec_dts(),
    {
        self.dts
    }

    /// The duration, in the packet's stream time base.
    pub fn duration(&self) -> (d: i64)
        ensures
            d == self.spec_duration(),
    {
        self.duration
    }

    /// The payload.
    pub fn data(&self) -> (d: &[u8])
        ensures
            d@ == self.spec_data(),
    {
        self.data.as_slice()
    }

    /// Rescale this packet's timestamps from `src` to `dst` time base: known pts and dts and a
    /// positive duration are each re-expressed in `dst`, rounded to the nearest tick.
    pub fn rescale_ts(&mut self, src: Rational, dst: Rational)
        ensures
            final(self).spec_pts() == rescaled_ts(old(self).spec_pts(), src, dst),
            final(self).spec_dts() == rescaled_ts(old(self).spec_dts(), src, dst),
            final(self).spec_duration() == rescaled_duration(old(self).spec_duration(), src, dst),
            final(self).spec_stream_index() == old(self).spec_stream_index(),
            final(self).spec_pos() == old(self).spec_pos(),
            final(self).spec_data() == old(self).spec_data(),
    {
        if self.pts != AV_NOPTS_VALUE {
            self.pts = rescale_q(self.pts, src, dst);
        }
        if self.dts != AV_NOPTS_VALUE {
            self.dts = rescale_q(self.dts, src, dst);
        }
        if self.duration > 0 {
            self.duration = rescale_q(self.duration, src, dst);
        }
    }

    /// Reset the byte position so the muxer recomputes it (call before writing a remuxed
    /// packet).
    pub fn clear_pos(&mut self)
        ensures
            final(self).spec_pos() == -1,
            final(self).spec_pts() == old(self).spec_pts(),
            final(self).spec_dts() == old(self).spec_dts(),
            final(self).spec_duration() == old(self).spec_duration(),
            final(self).spec_stream_index() == old(self).spec_stream_index(),
            final(self).spec_data() == old(self).spec_data(),
    {
        self.pos = -1;
    }

    /// Shift this packet's known pts/dts earlier by `delta` (used to re-base trimmed streams
    /// to start at zero). The shifted timestamps must stay in range.
    pub fn offset_timestamps(&mut self, delta: i64)
        requires
            i64_min() <= shifted(old(self).spec_pts(), delta) <= i64_max(),
            i64_min() <= shifted(old(self).spec_dts(), delta) <= i64_max(),
        ensures
            final(self).spec_pts() == shifted(old(self).spec_pts(), delta),
            final(self).spec_dts() == shifted(old(self).spec_dts(), delta),
            final(self).spec_duration() == old(self).spec_duration(),
            final(self).spec_stream_index() == old(self).spec_stream_index(),
            final(self).spec_pos() == old(self).spec_pos(),
            final(self).spec_data() == old(self).spec_data(),
    {
        if self.pts != i64::MIN {
            self.pts = self.pts - delta;
        }
        if self.dts != i64::MIN {
            self.dts = self.dts - delta;
        }
    }
}

} // verus!
