//! Batch processing data model: what to process, where to write, and where
//! each item stands. Walking the file system and writing images is a
//! collaborator's job.

use vstd::prelude::*;

verus! {

use crate::sstv::DecoderMode;

/// A batch run: which files, where the images go, and in which mode.
#[derive(Debug, Clone, PartialEq, Eq)]
pub struct BatchArgs {
    /// Glob pattern selecting the input recordings.
    pub input_pattern: String,
    /// Directory the decoded images are written to.
    pub output_dir: String,
    /// Decoder mode for the whole run.
    pub mode: DecoderMode,
}

/// Where one queued item stands.
#[derive(Debug, Clone, PartialEq, Eq)]
pub enum BatchStatus {
    Pending,
    Processing,
    Done,
    Error(String),
}

/// One queued recording with its status.
#[derive(Debug, Clone, PartialEq, Eq)]
pub struct BatchItem {
    /// Path of the recording.
    pub path: String,
    /// Where the item stands.
    pub status: BatchStatus,
}

} // verus!
