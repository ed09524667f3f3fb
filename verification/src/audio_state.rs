//! Audio playback state: an explicit state machine with typed device
//! errors and integer playback metrics. Driving an actual output device is a
//! collaborator's job; the states, transitions and bookkeeping live here.

use vstd::prelude::*;

verus! {

use vstd::string::StringExecFns;

/// Playback state of the loaded recording.
#[derive(Debug, Clone, Copy, PartialEq, Eq, Structural)]
pub enum AudioPlaybackState {
    /// No audio device available or no recording loaded.
    Uninitialized,
    /// Device ready and recording loaded, not playing.
    Ready,
    /// Playback in progress.
    Playing,
    /// Playback paused, position retained.
    Paused,
    /// Playback failed with a specific device error.
    Error(AudioError),
}

/// Audio device errors.
#[derive(Debug, Clone, Copy, PartialEq, Eq, Structural)]
pub enum AudioError {
    /// No audio output device detected.
    NoDevice,
    /// The device disconnected during playback.
    DeviceDisconnected,
    /// The device does not support the audio format.
    FormatUnsupported,
    /// A buffer underrun interrupted playback.
    BufferUnderrun,
    /// The audio sink could not be created.
    SinkCreationFailed,
    /// The audio stream could not be initialized.
    StreamInitFailed,
    /// The audio sink is gone.
    SinkNotAvailable,
}

impl AudioPlaybackState {
    /// True exactly in the `Playing` state.
    pub fn is_playing(&self) -> (r: bool)
        ensures
            r == (self is Playing),
    {
        match self {
            AudioPlaybackState::Playing => true,
            _ => false,
        }
    }

    /// Playback can start from `Ready` or `Paused`, and nowhere else.
    pub fn can_play(&self) -> (r: bool)
        ensures
            r == (self is Ready || self is Paused),
    {
        match self {
            AudioPlaybackState::Ready => true,
            AudioPlaybackState::Paused => true,
            _ => false,
        }
    }

    /// True exactly in an error state.
    pub fn is_error(&self) -> (r: bool)
        ensures
            r == (self is Error),
    {
        match self {
            AudioPlaybackState::Error(_) => true,
            _ => false,
        }
    }

    /// The error, when in an error state.
    pub fn error(&self) -> (r: Option<AudioError>)
        ensures
            match self {
                AudioPlaybackState::Error(e) => r == Some(*e),
                _ => r is None,
            },
    {
        if let AudioPlaybackState::Error(e) = self {
            Some(*e)
        } else {
            None
        }
    }

    /// A status icon for the state.
    pub fn status_icon(&self) -> (r: &'static str)
        ensures
            r == self.spec_status_icon(),
    {
        match self {
            AudioPlaybackState::Uninitialized => "\u{26aa}",
            AudioPlaybackState::Ready => "\u{1f50a}",
            AudioPlaybackState::Playing => "\u{25b6}\u{fe0f}",
            AudioPlaybackState::Paused => "\u{23f8}\u{fe0f}",
            AudioPlaybackState::Error(_) => "\u{26a0}\u{fe0f}",
        }
    }

    /// The icon `status_icon` returns for each state.
    pub open spec fn spec_status_icon(&self) -> &'static str {
        match self {
            AudioPlaybackState::Uninitialized => "\u{26aa}",
            AudioPlaybackState::Ready => "\u{1f50a}",
            AudioPlaybackState::Playing => "\u{25b6}\u{fe0f}",
            AudioPlaybackState::Paused => "\u{23f8}\u{fe0f}",
            AudioPlaybackState::Error(_) => "\u{26a0}\u{fe0f}",
        }
    }

    /// A short status message for the state.
    pub fn status_message(&self) -> (r: String)
        ensures
            r@ == self.spec_status_message()@,
    {
        String::from_str(
            match self {
                AudioPlaybackState::Uninitialized => "No audio",
                AudioPlaybackState::Ready => "Audio ready",
                AudioPlaybackState::Playing => "Playing",
                AudioPlaybackState::Paused => "Paused",
                AudioPlaybackState::Error(e) => match e {
                    AudioError::NoDevice => "Audio error: No audio device available",
                    AudioError::DeviceDisconnected => "Audio error: Audio device disconnected",
                    AudioError::FormatUnsupported => "Audio error: Audio format not supported",
                    AudioError::BufferUnderrun => "Audio error: Audio buffer underrun",
                    AudioError::SinkCreationFailed => "Audio error: Failed to create audio sink",
                    AudioError::StreamInitFailed => "Audio error: Failed to initialize audio stream",
                    AudioError::SinkNotAvailable => "Audio error: Audio sink not available",
                },
            },
        )
    }

    /// The message `status_message` returns for each state.
    pub open spec fn spec_status_message(&self) -> &'static str {
        match self {
            AudioPlaybackState::Uninitialized => "No audio",
            AudioPlaybackState::Ready => "Audio ready",
            AudioPlaybackState::Playing => "Playing",
            AudioPlaybackState::Paused => "Paused",
            AudioPlaybackState::Error(e) => match e {
                AudioError::NoDevice => "Audio error: No audio device available",
                AudioError::DeviceDisconnected => "Audio error: Audio device disconnected",
                AudioError::FormatUnsupported => "Audio error: Audio format not supported",
                AudioError::BufferUnderrun => "Audio error: Audio buffer underrun",
                AudioError::SinkCreationFailed => "Audio error: Failed to create audio sink",
                AudioError::StreamInitFailed => "Audio error: Failed to initialize audio stream",
                AudioError::SinkNotAvailable => "Audio error: Audio sink not available",
            },
        }
    }

    /// The state spelled out, in the words a display would use.
    pub fn to_text(&self) -> (r: String)
        ensures
            r@ == self.spec_text()@,
    {
        String::from_str(
            match self {
                AudioPlaybackState::Uninitialized => "Uninitialized",
                AudioPlaybackState::Ready => "Ready",
                AudioPlaybackState::Playing => "Playing",
                AudioPlaybackState::Paused => "Paused",
                AudioPlaybackState::Error(e) => match e {
                    AudioError::NoDevice => "Error: No audio device available",
                    AudioError::DeviceDisconnected => "Error: Audio device disconnected",
                    AudioError::FormatUnsupported => "Error: Audio format not supported",
                    AudioError::BufferUnderrun => "Error: Audio buffer underrun",
                    AudioError::SinkCreationFailed => "Error: Failed to create audio sink",
                    AudioError::StreamInitFailed => "Error: Failed to initialize audio stream",
                    AudioError::SinkNotAvailable => "Error: Audio sink not available",
                },
            },
        )
    }

    /// The text `to_text` returns for each state.
    pub open spec fn spec_text(&self) -> &'static str {
        match self {
            AudioPlaybackState::Uninitialized => "Uninitialized",
            AudioPlaybackState::Ready => "Ready",
            AudioPlaybackState::Playing => "Playing",
            AudioPlaybackState::Paused => "Paused",
            AudioPlaybackState::Error(e) => match e {
                AudioError::NoDevice => "Error: No audio device available",
                AudioError::DeviceDisconnected => "Error: Audio device disconnected",
                AudioError::FormatUnsupported => "Error: Audio format not supported",
                AudioError::BufferUnderrun => "Error: Audio buffer underrun",
                AudioError::SinkCreationFailed => "Error: Failed to create audio sink",
                AudioError::StreamInitFailed => "Error: Failed to initialize audio stream",
                AudioError::SinkNotAvailable => "Error: Audio sink not available",
            },
        }
    }
}

impl AudioError {
    /// An error is recoverable when the user can retry without changing the
    /// recording or the device setup.
    pub fn is_recoverable(&self) -> (r: bool)
        ensures
            r == (self is DeviceDisconnected || self is BufferUnderrun || self
                is SinkCreationFailed || self is SinkNotAvailable),
    {
        match self {
            AudioError::DeviceDisconnected => true,
            AudioError::BufferUnderrun => true,
            AudioError::SinkCreationFailed => true,
            AudioError::SinkNotAvailable => true,
            _ => false,
        }
    }

    /// The error spelled out, in the words a display would use.
    pub fn to_text(&self) -> (r: String)
        ensures
            r@ == self.spec_text()@,
    {
        String::from_str(
            match self {
                AudioError::NoDevice => "No audio device available",
                AudioError::DeviceDisconnected => "Audio device disconnected",
                AudioError::FormatUnsupported => "Audio format not supported",
                AudioError::BufferUnderrun => "Audio buffer underrun",
                AudioError::SinkCreationFailed => "Failed to create audio sink",
                AudioError::StreamInitFailed => "Failed to initialize audio stream",
                AudioError::SinkNotAvailable => "Audio sink not available",
            },
        )
    }

    /// The text `to_text` returns for each error.
    pub open spec fn spec_text(&self) -> &'static str {
        match self {
            AudioError::NoDevice => "No audio device available",
            AudioError::DeviceDisconnected => "Audio device disconnected",
            AudioError::FormatUnsupported => "Audio format not supported",
            AudioError::BufferUnderrun => "Audio buffer underrun",
            AudioError::SinkCreationFailed => "Failed to create audio sink",
            AudioError::StreamInitFailed => "Failed to initialize audio stream",
            AudioError::SinkNotAvailable => "Audio sink not available",
        }
    }

    /// What the user should do about the error.
    pub fn user_action(&self) -> (r: &'static str)
        ensures
            r == self.spec_user_action(),
    {
        match self {
            AudioError::NoDevice => "Check audio device connection",
            AudioError::DeviceDisconnected => "Reconnect audio device and retry",
            AudioError::FormatUnsupported => "Audio format incompatible with device",
            AudioError::BufferUnderrun => "Playback may stutter; try reducing system load",
            AudioError::SinkCreationFailed => "Retry playback",
            AudioError::StreamInitFailed => "Restart application or check audio settings",
            AudioError::SinkNotAvailable => "Retry playback or restart application",
        }
    }

    /// The action `user_action` suggests for each error.
    pub open spec fn spec_user_action(&self) -> &'static str {
        match self {
            AudioError::NoDevice => "Check audio device connection",
            AudioError::DeviceDisconnected => "Reconnect audio device and retry",
            AudioError::FormatUnsupported => "Audio format incompatible with device",
            AudioError::BufferUnderrun => "Playback may stutter; try reducing system load",
            AudioError::SinkCreationFailed => "Retry playback",
            AudioError::StreamInitFailed => "Restart application or check audio settings",
            AudioError::SinkNotAvailable => "Retry playback or restart application",
        }
    }
}

/// Integer playback metrics. Timestamps come from the driver's clock, in
/// milliseconds.
#[derive(Debug, Clone, PartialEq, Eq)]
pub struct AudioMetrics {
    /// Total time spent playing, in milliseconds.
    pub total_playback_ms: u64,
    /// Seeks performed.
    pub seek_count: u32,
    /// Buffer underruns detected.
    pub buffer_underruns: u32,
    /// Device errors encountered.
    pub device_errors: u32,
    /// Name of the last audio device seen.
    pub last_device_name: String,
    /// Driver-clock time of the last state change, where one happened.
    pub last_state_change_ms: Option<u64>,
    /// Successful play operations.
    pub play_count: u32,
    /// Pause operations.
    pub pause_count: u32,
    /// Stop operations.
    pub stop_count: u32,
}

impl Default for AudioMetrics {
    fn default() -> (m: Self)
        ensures
            m.total_playback_ms == 0,
            m.seek_count == 0,
            m.buffer_underruns == 0,
            m.device_errors == 0,
            m.last_device_name@ == "Unknown"@,
            m.last_state_change_ms is None,
            m.play_count == 0,
            m.pause_count == 0,
            m.stop_count == 0,
    {
        AudioMetrics {
            total_playback_ms: 0,
            seek_count: 0,
            buffer_underruns: 0,
            device_errors: 0,
            last_device_name: String::from_str("Unknown"),
            last_state_change_ms: None,
            play_count: 0,
            pause_count: 0,
            stop_count: 0,
        }
    }
}

impl AudioMetrics {
    /// Records a seek.
    pub fn record_seek(&mut self)
        requires
            old(self).seek_count < u32::MAX,
        ensures
            final(self).seek_count == old(self).seek_count + 1,
            *final(self) == (AudioMetrics { seek_count: final(self).seek_count, ..*old(self) }),
    {
        self.seek_count = self.seek_count + 1;
    }

    /// Records a play operation at driver time `now_ms`.
    pub fn record_play(&mut self, now_ms: u64)
        requires
            old(self).play_count < u32::MAX,
        ensures
            final(self).play_count == old(self).play_count + 1,
            final(self).last_state_change_ms == Some(now_ms),
            *final(self) == (AudioMetrics {
                play_count: final(self).play_count,
                last_state_change_ms: Some(now_ms),
                ..*old(self)
            }),
    {
        self.play_count = self.play_count + 1;
        self.last_state_change_ms = Some(now_ms);
    }

    /// Records a pause operation at driver time `now_ms`.
    pub fn record_pause(&mut self, now_ms: u64)
        requires
            old(self).pause_count < u32::MAX,
        ensures
            final(self).pause_count == old(self).pause_count + 1,
            final(self).last_state_change_ms == Some(now_ms),
            *final(self) == (AudioMetrics {
                pause_count: final(self).pause_count,
                last_state_change_ms: Some(now_ms),
                ..*old(self)
            }),
    {
        self.pause_count = self.pause_count + 1;
        self.last_state_change_ms = Some(now_ms);
    }

    /// Records a stop operation at driver time `now_ms`.
    pub fn record_stop(&mut self, now_ms: u64)
        requires
            old(self).stop_count < u32::MAX,
        ensures
            final(self).stop_count == old(self).stop_count + 1,
            final(self).last_state_change_ms == Some(now_ms),
            *final(self) == (AudioMetrics {
                stop_count: final(self).stop_count,
                last_state_change_ms: Some(now_ms),
                ..*old(self)
            }),
    {
        self.stop_count = self.stop_count + 1;
        self.last_state_change_ms = Some(now_ms);
    }

    /// Records a buffer underrun.
    pub fn record_buffer_underrun(&mut self)
        requires
            old(self).buffer_underruns < u32::MAX,
        ensures
            final(self).buffer_underruns == old(self).buffer_underruns + 1,
            *final(self) == (AudioMetrics {
                buffer_underruns: final(self).buffer_underruns,
                ..*old(self)
            }),
    {
        self.buffer_underruns = self.buffer_underruns + 1;
    }

    /// Records a device error.
    pub fn record_device_error(&mut self)
        requires
            old(self).device_errors < u32::MAX,
        ensures
            final(self).device_errors == old(self).device_errors + 1,
            *final(self) == (AudioMetrics { device_errors: final(self).device_errors, ..*old(self) }),
    {
        self.device_errors = self.device_errors + 1;
    }

    /// Adds to the total playback time.
    pub fn add_playback_time(&mut self, duration_ms: u64)
        requires
            old(self).total_playback_ms + duration_ms <= u64::MAX,
        ensures
            final(self).total_playback_ms == old(self).total_playback_ms + duration_ms,
            *final(self) == (AudioMetrics {
                total_playback_ms: final(self).total_playback_ms,
                ..*old(self)
            }),
    {
        self.total_playback_ms = self.total_playback_ms + duration_ms;
    }
}

} // verus!
