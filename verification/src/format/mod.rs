//! Demuxing and muxing state: [`reader::MediaReader`] and [`writer::MediaWriter`].

pub mod reader;
pub mod writer;
