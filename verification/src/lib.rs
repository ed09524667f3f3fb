//! Decoder for slow-scan images carried in audio tones, in the style of the
//! Voyager Golden Record, together with the surrounding machinery that keeps
//! an interactive explorer responsive: a sync-tone scanner, a line-based image
//! pipeline, a background decode worker protocol, a worker supervisor, and a
//! zero-copy shared sample buffer.
//!
//! Amplitudes are fixed-point: one unit is a millionth of full scale, so a
//! normalized amplitude of 1.0 is `AMPLITUDE_ONE`. Durations are integers as
//! well (microseconds for line durations, milliseconds elsewhere). Callers
//! that read floating-point audio convert at the boundary.

pub mod audio;
pub mod audio_state;
pub mod batch;
pub mod config;
pub mod error;
pub mod image_output;
pub mod pipeline;
pub mod presets;
pub mod session;
pub mod sstv;
pub mod supervisor;
pub mod sync;
pub mod worker;
