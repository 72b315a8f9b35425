//! Frame extraction: which frames to sample, how extracted frames are named and encoded, and
//! what a run reports.

pub mod frame;
pub mod plan;
pub mod report;
pub mod types;
