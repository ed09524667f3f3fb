//! Session state: what it takes to restore a working session — the loaded
//! file, the playback position, the decoder settings. Persisting the state
//! to disk is a collaborator's job.

use vstd::prelude::*;

verus! {

use crate::audio::WaveformChannel;
use crate::sstv::DecoderMode;
use crate::sstv::DecoderParams;

/// A snapshot of the application state worth restoring.
#[derive(Debug, Clone, PartialEq, Eq)]
pub struct SessionState {
    /// Path of the loaded recording, where one is loaded.
    pub wav_path: Option<String>,
    /// Playback position, in samples.
    pub current_position_samples: usize,
    /// The channel under inspection.
    pub selected_channel: WaveformChannel,
    /// Line duration, in microseconds.
    pub line_duration_us: u32,
    /// Binarization threshold, in millionths of full scale.
    pub threshold: u32,
    /// Decode window, in milliseconds.
    pub decode_window_ms: u32,
    /// Grayscale or pseudocolor output.
    pub mode: DecoderMode,
    /// The preset name, where the parameters match one.
    pub current_preset: Option<String>,
}

impl SessionState {
    /// Captures a session from the application's current state.
    pub fn from_app(
        wav_path: Option<String>,
        current_position_samples: usize,
        selected_channel: WaveformChannel,
        params: &DecoderParams,
        current_preset: Option<String>,
    ) -> (s: Self)
        ensures
            s.wav_path == wav_path,
            s.current_position_samples == current_position_samples,
            s.selected_channel == selected_channel,
            s.line_duration_us == params.line_duration_us,
            s.threshold == params.threshold,
            s.decode_window_ms == params.decode_window_ms,
            s.mode == params.mode,
            s.current_preset == current_preset,
    {
        SessionState {
            wav_path,
            current_position_samples,
            selected_channel,
            line_duration_us: params.line_duration_us,
            threshold: params.threshold,
            decode_window_ms: params.decode_window_ms,
            mode: params.mode,
            current_preset,
        }
    }

    /// The decoder parameters the session stores.
    pub fn to_params(&self) -> (p: DecoderParams)
        ensures
            p == (DecoderParams {
                line_duration_us: self.line_duration_us,
                threshold: self.threshold,
                decode_window_ms: self.decode_window_ms,
                mode: self.mode,
            }),
    {
        DecoderParams {
            line_duration_us: self.line_duration_us,
            threshold: self.threshold,
            decode_window_ms: self.decode_window_ms,
            mode: self.mode,
        }
    }
}

} // verus!
