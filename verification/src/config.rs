//! Application configuration: defaults and validation. Loading and saving
//! the configuration file is a collaborator's job; the library validates the
//! values.

use vstd::prelude::*;

verus! {

use vstd::string::StringExecFns;
use crate::error::ConfigError;

/// Decoder configuration.
#[derive(Debug, Clone, Copy, PartialEq, Eq, Structural)]
pub struct DecoderConfig {
    /// Default line duration, in microseconds (1000..=100000).
    pub default_line_duration_us: u32,
    /// Default binarization threshold, in millionths of full scale.
    pub default_threshold: u32,
    /// Decode window length, in milliseconds.
    pub decode_window_ms: u32,
    /// Analysis chunk length for sync detection; must be a power of two.
    pub fft_chunk_size: usize,
    /// A spectrum peak counts as the sync tone past mean times this factor.
    pub sync_threshold_multiplier: u64,
    /// The sync-tone frequency, in Hz.
    pub target_sync_freq_hz: u32,
}

/// Display configuration.
#[derive(Debug, Clone, Copy, PartialEq, Eq, Structural)]
pub struct UiConfig {
    /// Fixed raster width, in pixels.
    pub image_width: usize,
    /// Raster height cap, in lines.
    pub max_image_height: usize,
    /// Waveform panel height, in pixels.
    pub waveform_height_px: u32,
    /// Whether the debug panel starts visible.
    pub show_debug_panel: bool,
    /// Target frame rate of the interactive loop.
    pub target_fps: u32,
}

/// Decode-worker configuration.
#[derive(Debug, Clone, Copy, PartialEq, Eq, Structural)]
pub struct WorkerConfig {
    /// Cap on queued decode requests.
    pub max_queue_size: usize,
    /// How often the supervisor checks worker health, in milliseconds.
    pub health_check_interval_ms: u64,
    /// Longest silence from a busy worker before it counts as stuck, in
    /// milliseconds.
    pub max_unresponsive_ms: u64,
    /// Whether a faulted worker is replaced automatically.
    pub auto_restart_on_panic: bool,
}

/// Metrics configuration.
#[derive(Debug, Clone, Copy, PartialEq, Eq, Structural)]
pub struct MetricsConfig {
    /// Whether metrics are collected at all.
    pub enabled: bool,
    /// Whether the metrics panel starts visible.
    pub show_metrics_panel: bool,
    /// Histogram precision, in significant digits.
    pub histogram_precision: u8,
    /// Largest latency the histogram can record, in milliseconds.
    pub histogram_max_ms: u64,
}

/// The whole application configuration.
#[derive(Debug, Clone, Copy, PartialEq, Eq, Structural)]
pub struct AppConfig {
    pub decoder: DecoderConfig,
    pub ui: UiConfig,
    pub worker: WorkerConfig,
    pub metrics: MetricsConfig,
}

impl Default for DecoderConfig {
    /// The stock decoder configuration: an 8.3 ms line, a fifth of full
    /// scale as threshold, a two-second window, 2048-sample chunks, a
    /// tenfold sync multiplier at 1200 Hz.
    fn default() -> (c: Self)
        ensures
            c == (DecoderConfig {
                default_line_duration_us: 8300u32,
                default_threshold: 200_000u32,
                decode_window_ms: 2000u32,
                fft_chunk_size: 2048usize,
                sync_threshold_multiplier: 10u64,
                target_sync_freq_hz: 1200u32,
            }),
    {
        DecoderConfig {
            default_line_duration_us: 8300,
            default_threshold: 200_000,
            decode_window_ms: 2000,
            fft_chunk_size: 2048,
            sync_threshold_multiplier: 10,
            target_sync_freq_hz: 1200,
        }
    }
}

impl Default for UiConfig {
    fn default() -> (c: Self)
        ensures
            c == (UiConfig {
                image_width: 512usize,
                max_image_height: 16384usize,
                waveform_height_px: 200u32,
                show_debug_panel: false,
                target_fps: 60u32,
            }),
    {
        UiConfig {
            image_width: 512,
            max_image_height: 16384,
            waveform_height_px: 200,
            show_debug_panel: false,
            target_fps: 60,
        }
    }
}

impl Default for WorkerConfig {
    fn default() -> (c: Self)
        ensures
            c == (WorkerConfig {
                max_queue_size: 10usize,
                health_check_interval_ms: 1000u64,
                max_unresponsive_ms: 5000u64,
                auto_restart_on_panic: true,
            }),
    {
        WorkerConfig {
            max_queue_size: 10,
            health_check_interval_ms: 1000,
            max_unresponsive_ms: 5000,
            auto_restart_on_panic: true,
        }
    }
}

impl Default for MetricsConfig {
    fn default() -> (c: Self)
        ensures
            c == (MetricsConfig {
                enabled: true,
                show_metrics_panel: false,
                histogram_precision: 2u8,
                histogram_max_ms: 10_000u64,
            }),
    {
        MetricsConfig {
            enabled: true,
            show_metrics_panel: false,
            histogram_precision: 2,
            histogram_max_ms: 10_000,
        }
    }
}

impl Default for AppConfig {
    fn default() -> (c: Self)
        ensures
            c == (AppConfig {
                decoder: DecoderConfig {
                    default_line_duration_us: 8300u32,
                    default_threshold: 200_000u32,
                    decode_window_ms: 2000u32,
                    fft_chunk_size: 2048usize,
                    sync_threshold_multiplier: 10u64,
                    target_sync_freq_hz: 1200u32,
                },
                ui: UiConfig {
                    image_width: 512usize,
                    max_image_height: 16384usize,
                    waveform_height_px: 200u32,
                    show_debug_panel: false,
                    target_fps: 60u32,
                },
                worker: WorkerConfig {
                    max_queue_size: 10usize,
                    health_check_interval_ms: 1000u64,
                    max_unresponsive_ms: 5000u64,
                    auto_restart_on_panic: true,
                },
                metrics: MetricsConfig {
                    enabled: true,
                    show_metrics_panel: false,
                    histogram_precision: 2u8,
                    histogram_max_ms: 10_000u64,
                },
            }),
    {
        AppConfig {
            decoder: DecoderConfig::default(),
            ui: UiConfig::default(),
            worker: WorkerConfig::default(),
            metrics: MetricsConfig::default(),
        }
    }
}

/// Whether `n` is a power of two.
pub open spec fn spec_is_power_of_two(n: int) -> bool
    decreases n,
{
    if n <= 0 {
        false
    } else if n == 1 {
        true
    } else {
        n % 2 == 0 && spec_is_power_of_two(n / 2)
    }
}

/// Decides whether `n` is a power of two by repeated halving.
pub fn is_power_of_two(n: usize) -> (r: bool)
    ensures
        r == spec_is_power_of_two(n as int),
{
    if n == 0 {
        return false;
    }
    let mut m: usize = n;
    while m > 1
        invariant
            m >= 1,
            spec_is_power_of_two(n as int) == spec_is_power_of_two(m as int),
        decreases m,
    {
        if m % 2 == 1 {
            return false;
        }
        m = m / 2;
    }
    true
}

impl AppConfig {
    /// The conditions under which a configuration is accepted.
    pub open spec fn spec_valid(&self) -> bool {
        &&& 1000 <= self.decoder.default_line_duration_us <= 100_000
        &&& self.decoder.default_threshold <= 1_000_000
        &&& spec_is_power_of_two(self.decoder.fft_chunk_size as int)
        &&& self.ui.image_width > 0
        &&& self.worker.max_queue_size > 0
    }

    /// Validates the configuration: the default line duration must lie in
    /// 1..=100 ms, the default threshold within full scale, the chunk size
    /// must be a power of two, and the image width and worker queue size
    /// positive. The error names the first check that failed.
    pub fn validate(&self) -> (r: Result<(), ConfigError>)
        ensures
            r matches Ok(()) <==> self.spec_valid(),
            r matches Err(e) ==> e matches ConfigError::ValidationFailed { .. },
    {
        if self.decoder.default_line_duration_us < 1000 || self.decoder.default_line_duration_us
            > 100_000 {
            return Err(
                ConfigError::ValidationFailed {
                    reason: String::from_str("line duration out of range 1-100ms"),
                },
            );
        }
        if self.decoder.default_threshold > 1_000_000 {
            return Err(
                ConfigError::ValidationFailed {
                    reason: String::from_str("threshold out of range 0.0-1.0"),
                },
            );
        }
        if !is_power_of_two(self.decoder.fft_chunk_size) {
            return Err(
                ConfigError::ValidationFailed {
                    reason: String::from_str("FFT chunk size must be power of 2"),
                },
            );
        }
        if self.ui.image_width == 0 {
            return Err(
                ConfigError::ValidationFailed {
                    reason: String::from_str("image width must be > 0"),
                },
            );
        }
        if self.worker.max_queue_size == 0 {
            return Err(
                ConfigError::ValidationFailed {
                    reason: String::from_str("worker queue size must be > 0"),
                },
            );
        }
        Ok(())
    }
}

} // verus!
