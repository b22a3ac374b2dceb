use vstd::prelude::*;

verus! {

/// Number of octave bands shown on screen.
pub const NUM_BANDS: usize = 8;

/// Text under each band bar, lowest band first.
pub const BAND_LABELS: [&'static str; 8] = ["125", "250", "500", "1K", "2K", "4K", "8K", "16K"];

/// Number of samples handed from a source to the spectrum processor at a time.
pub const CHUNK_SIZE: usize = 4096;

/// WAV file used when no microphone is available.
pub const WAV_FILE: &'static str = "./data/file_example_WAV_2MG.wav";

/// Minimum time between two screen refreshes, in milliseconds.
pub const UPDATE_INTERVAL_MS: u64 = 100;

/// Width of the OLED screen in pixels.
pub const SCREEN_WIDTH: usize = 128;

/// Height of the bar graph area in pixels (the rest holds the labels).
pub const GRAPH_HEIGHT: usize = 56;

/// Linux I2C device the OLED screen is attached to.
pub const I2C_PERIPHERAL_PATH: &'static str = "/dev/i2c-1";

} // verus!
