//! The muxer side: output streams, their time bases, and the header/packet ordering rule.

use vstd::prelude::*;
use crate::codec::encoder::Encoder;
use crate::error::{Error, Result};
use crate::format::reader::MediaReader;
use crate::packet::{Packet, rescaled_duration, rescaled_ts};
use crate::rational::Rational;

verus! {

/// `AVFMT_NOFILE`: the muxer writes no file of its own (pipes, protocols).
pub const AVFMT_NOFILE: i32 = 0x0001;

/// `AVFMT_GLOBALHEADER`: the container wants codec extradata in its header.
pub const AVFMT_GLOBALHEADER: i32 = 0x0040;

/// Whether an output format with these `flags` wants codec extradata in its header.
pub fn format_wants_global_header(flags: i32) -> (b: bool)
    ensures
        b == (flags & AVFMT_GLOBALHEADER != 0),
{
    flags & AVFMT_GLOBALHEADER != 0
}

/// Whether an output format with these `flags` needs a file opened for it.
pub fn format_needs_file(flags: i32) -> (b: bool)
    ensures
        b == (flags & AVFMT_NOFILE == 0),
{
    flags & AVFMT_NOFILE == 0
}

/// The state of a media file being written: whether its container wants codec extradata in
/// the header, the time base each output stream's packets arrive in (from its encoder, or
/// from the input stream it copies), and, once the header is written, the time base the muxer
/// settled on for each stream.
///
/// Add one output stream per encoder (or copied input stream), write the header, then write
/// packets, each tagged with its output stream index.
#[derive(Clone, Debug)]
pub struct MediaWriter {
    wants_global_header: bool,
    source_tb: Vec<Rational>,
    muxer_tb: Option<Vec<Rational>>,
}

impl MediaWriter {
    /// Whether the container wants codec extradata in its header.
    pub closed spec fn spec_wants_global_header(&self) -> bool {
        self.wants_global_header
    }

    /// The time base packets of each output stream arrive in, by stream index.
    pub closed spec fn spec_source_tbs(&self) -> Seq<Rational> {
        self.source_tb@
    }

    /// The time bases the muxer chose at header time (`None` before the header is written).
    pub closed spec fn spec_muxer_tbs(&self) -> Option<Seq<Rational>> {
        match self.muxer_tb {
            Some(v) => Some(v@),
            None => None,
        }
    }

    /// A writer for a container with no streams yet; `wants_global_header` is the container's
    /// `AVFMT_GLOBALHEADER` flag.
    pub fn create(wants_global_header: bool) -> (w: MediaWriter)
        ensures
            w.spec_wants_global_header() == wants_global_header,
            w.spec_source_tbs() == Seq::<Rational>::empty(),
            w.spec_muxer_tbs() is None,
    {
        MediaWriter { wants_global_header, source_tb: Vec::new(), muxer_tb: None }
    }

    /// Add an output stream fed by `encoder`, returning its stream index.
    pub fn add_stream_from_encoder<E: Encoder>(&mut self, encoder: &E) -> (r: Result<usize>)
        ensures
            r == Ok::<usize, Error>(old(self).spec_source_tbs().len() as usize),
            final(self).spec_source_tbs() == old(self).spec_source_tbs().push(encoder.packet_time_base()),
            final(self).spec_muxer_tbs() == old(self).spec_muxer_tbs(),
            final(self).spec_wants_global_header() == old(self).spec_wants_global_header(),
    {
        let index = self.source_tb.len();
        let tb = encoder.stream_time_base();
        self.source_tb.push(tb);
        Ok(index)
    }

    /// Add an output stream that copies stream `src_index` of `reader` verbatim (stream copy,
    /// e.g. passing audio through untouched), returning its stream index. Its packets arrive
    /// in the input stream's time base.
    pub fn add_stream_copy(&mut self, reader: &MediaReader, src_index: usize) -> (r: Result<usize>)
        ensures
            src_index < reader.spec_streams().len() ==> {
                &&& r == Ok::<usize, Error>(old(self).spec_source_tbs().len() as usize)
                &&& final(self).spec_source_tbs() == old(self).spec_source_tbs().push(
                    reader.spec_streams()[src_index as int].time_base,
                )
            },
            src_index >= reader.spec_streams().len() ==> {
                &&& r == Err::<usize, Error>(Error::StreamOutOfRange(src_index))
                &&& final(self).spec_source_tbs() == old(self).spec_source_tbs()
            },
            final(self).spec_muxer_tbs() == old(self).spec_muxer_tbs(),
            final(self).spec_wants_global_header() == old(self).spec_wants_global_header(),
    {
        let tb = match reader.stream_time_base(src_index) {
            Ok(tb) => tb,
            Err(e) => return Err(e),
        };
        let index = self.source_tb.len();
        self.source_tb.push(tb);
        Ok(index)
    }

    /// `true` if the container wants codec extradata in its header (so encoders feeding it
    /// should set the global-header flag).
    pub fn wants_global_header(&self) -> (b: bool)
        ensures
            b == self.spec_wants_global_header(),
    {
        self.wants_global_header
    }

    /// Record that the header was written, with the time base the muxer chose for each output
    /// stream (the muxer may refine the encoders' time bases).
    pub fn write_header(&mut self, stream_time_bases: Vec<Rational>) -> (r: Result<()>)
        ensures
            r is Ok,
            final(self).spec_muxer_tbs() == Some(stream_time_bases@),
            final(self).spec_source_tbs() == old(self).spec_source_tbs(),
            final(self).spec_wants_global_header() == old(self).spec_wants_global_header(),
    {
        self.muxer_tb = Some(stream_time_bases);
        Ok(())
    }

    /// Prepare one packet for muxing: its stream index selects the output stream, its
    /// timestamps are rescaled from the stream's source time base to the muxer's, and its byte
    /// position is reset. Fails if the header has not been written yet, or if the stream index
    /// names no output stream; the packet is then left unchanged.
    pub fn write_packet(&mut self, packet: &mut Packet) -> (r: Result<()>)
        ensures
            *final(self) == *old(self),
            ({
                let index = old(packet).spec_stream_index() as usize;
                match old(self).spec_muxer_tbs() {
                    None => (r matches Err(Error::InvalidConfig(m))
                        && m@ == "write_header must be called before write_packet"@)
                        && *final(packet) == *old(packet),
                    Some(muxer) => if index < old(self).spec_source_tbs().len() && index < muxer.len() {
                        let src = old(self).spec_source_tbs()[index as int];
                        let dst = muxer[index as int];
                        &&& r is Ok
                        &&& final(packet).spec_pts() == rescaled_ts(old(packet).spec_pts(), src, dst)
                        &&& final(packet).spec_dts() == rescaled_ts(old(packet).spec_dts(), src, dst)
                        &&& final(packet).spec_duration() == rescaled_duration(
                            old(packet).spec_duration(),
                            src,
                            dst,
                        )
                        &&& final(packet).spec_pos() == -1
                        &&& final(packet).spec_stream_index() == old(packet).spec_stream_index()
                        &&& final(packet).spec_data() == old(packet).spec_data()
                    } else {
                        r == Err::<(), Error>(Error::StreamOutOfRange(index))
                            && *final(packet) == *old(packet)
                    },
                }
            }),
    {
        let muxer = match &self.muxer_tb {
            Some(m) => m,
            None => return Err(Error::InvalidConfig("write_header must be called before write_packet")),
        };
        let index = packet.stream_index();
        if index >= self.source_tb.len() || index >= muxer.len() {
            return Err(Error::StreamOutOfRange(index));
        }
        let src = self.source_tb[index];
        let dst = muxer[index];
        packet.rescale_ts(src, dst);
        packet.clear_pos();
        Ok(())
    }
}

} // verus!
