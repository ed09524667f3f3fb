//! Error types for every component of the explorer.
//!
//! Each failure is a typed value: parameter errors carry the offending value,
//! insufficient-data errors carry what was needed and what was available.

use vstd::prelude::*;

verus! {

/// Audio loading and playback errors.
#[derive(Debug, Clone, PartialEq, Eq)]
pub enum AudioError {
    /// The file at `path` could not be opened or parsed.
    LoadFailed { path: String },
    /// The sample rate lies outside the supported 8 kHz - 192 kHz range.
    InvalidSampleRate { rate: u32 },
    /// Only mono and stereo recordings are supported.
    UnsupportedChannels { channels: u16 },
    /// The file at `path` holds no samples.
    EmptyFile { path: String },
    /// Fewer samples were available than an operation needs.
    BufferTooShort { needed: usize, actual: usize },
    /// Audio playback could not be initialized.
    PlaybackInitFailed { reason: String },
    /// The audio stream reported an error.
    StreamError(String),
}

/// Decoder errors.
#[derive(Debug, Clone, PartialEq, Eq)]
pub enum DecoderError {
    /// The combination of parameters yields no samples per line.
    InvalidParams { line_duration_us: u32, sample_rate: u32 },
    /// The line duration lies outside 1000..=100000 microseconds.
    InvalidLineDuration { duration_us: u32 },
    /// The threshold exceeds full scale.
    InvalidThreshold { threshold: u32 },
    /// The frequency transform failed.
    FftError { reason: String },
    /// Fewer samples were supplied than one line needs.
    InsufficientSamples { needed: usize, actual: usize },
    /// A decode ran longer than the allotted time.
    Timeout { timeout_ms: u64 },
    /// No sync tone was found in the recording.
    NoSyncDetected,
}

/// Configuration errors.
#[derive(Debug, Clone, PartialEq, Eq)]
pub enum ConfigError {
    /// A configuration value failed validation.
    ValidationFailed { reason: String },
}

/// Decode-worker errors.
#[derive(Debug, Clone, PartialEq, Eq)]
pub enum WorkerError {
    /// The worker terminated with a fault.
    Panicked { reason: String },
    /// A worker channel endpoint is gone.
    ChannelDisconnected,
    /// The worker could not be started.
    StartFailed { reason: String },
    /// The worker stopped answering.
    HealthCheckFailed { last_response_ms: u64 },
    /// Too many requests are already queued.
    QueueFull { queue_size: usize },
}

/// Top-level error for explorer operations.
#[derive(Debug, Clone, PartialEq, Eq)]
pub enum VoyagerError {
    Audio(AudioError),
    Decoder(DecoderError),
    Config(ConfigError),
    Worker(WorkerError),
    Pipeline(crate::pipeline::PipelineError),
}

impl VoyagerError {
    /// A short fixed description of the error, for transport as a message.
    pub fn describe(&self) -> (r: &'static str)
        ensures
            r == self.spec_describe(),
    {
        match self {
            VoyagerError::Audio(_) => "audio error",
            VoyagerError::Decoder(e) => e.describe(),
            VoyagerError::Config(_) => "configuration error",
            VoyagerError::Worker(_) => "worker thread error",
            VoyagerError::Pipeline(e) => e.describe(),
        }
    }

    /// The description that `describe` returns for each variant.
    pub open spec fn spec_describe(&self) -> &'static str {
        match self {
            VoyagerError::Audio(_) => "audio error",
            VoyagerError::Decoder(e) => e.spec_describe(),
            VoyagerError::Config(_) => "configuration error",
            VoyagerError::Worker(_) => "worker thread error",
            VoyagerError::Pipeline(e) => e.spec_describe(),
        }
    }
}

impl AudioError {
    /// An error is recoverable when retrying with the same file can succeed.
    pub fn is_recoverable(&self) -> (r: bool)
        ensures
            r == (self matches AudioError::BufferTooShort { .. }
                || self matches AudioError::StreamError(_)
                || self matches AudioError::PlaybackInitFailed { .. }),
    {
        match self {
            AudioError::BufferTooShort { .. } => true,
            AudioError::StreamError(_) => true,
            AudioError::PlaybackInitFailed { .. } => true,
            _ => false,
        }
    }
}

impl DecoderError {
    /// A suggestion for how the caller can recover, where one exists.
    pub fn recovery_hint(&self) -> (r: Option<&'static str>)
        ensures
            r is Some <==> (self matches DecoderError::InvalidLineDuration { .. }
                || self matches DecoderError::InvalidThreshold { .. }
                || self matches DecoderError::InsufficientSamples { .. }
                || self matches DecoderError::NoSyncDetected),
    {
        match self {
            DecoderError::InvalidLineDuration { .. } => {
                Some("Try adjusting line duration between 1-100ms")
            },
            DecoderError::InvalidThreshold { .. } => {
                Some("Try adjusting threshold between 0.0-1.0")
            },
            DecoderError::InsufficientSamples { .. } => {
                Some("Load a longer audio file or adjust decode window")
            },
            DecoderError::NoSyncDetected => {
                Some("Try adjusting threshold or verify this is SSTV audio")
            },
            _ => None,
        }
    }

    /// A short fixed description of the error kind.
    pub fn describe(&self) -> (r: &'static str)
        ensures
            r == self.spec_describe(),
    {
        match self {
            DecoderError::InvalidParams { .. } => "invalid decoder parameters",
            DecoderError::InvalidLineDuration { .. } => "line duration out of range",
            DecoderError::InvalidThreshold { .. } => "threshold out of range",
            DecoderError::FftError { .. } => "FFT processing failed",
            DecoderError::InsufficientSamples { .. } => "insufficient samples for decoding",
            DecoderError::Timeout { .. } => "decode operation timed out",
            DecoderError::NoSyncDetected => "no sync signals detected",
        }
    }

    /// The description that `describe` returns for each variant.
    pub open spec fn spec_describe(&self) -> &'static str {
        match self {
            DecoderError::InvalidParams { .. } => "invalid decoder parameters",
            DecoderError::InvalidLineDuration { .. } => "line duration out of range",
            DecoderError::InvalidThreshold { .. } => "threshold out of range",
            DecoderError::FftError { .. } => "FFT processing failed",
            DecoderError::InsufficientSamples { .. } => "insufficient samples for decoding",
            DecoderError::Timeout { .. } => "decode operation timed out",
            DecoderError::NoSyncDetected => "no sync signals detected",
        }
    }
}

} // verus!
