//! Verified core of a safe wrapper around libmgba, a Game Boy Advance
//! emulator: the button model, the error model, and the decisions that the
//! emulator handle makes around each call into the C library.

use vstd::prelude::*;

pub mod key;
pub mod error;
pub mod lifecycle;
pub mod startup;

pub use key::Key;
pub use error::CoreError;

verus! {

/// GBA screen width in pixels.
pub const GBA_WIDTH: usize = 240;

/// GBA screen height in pixels.
pub const GBA_HEIGHT: usize = 160;

/// Total number of pixels in a GBA frame (`GBA_WIDTH * GBA_HEIGHT`).
pub const GBA_PIXELS: usize = GBA_WIDTH * GBA_HEIGHT;

/// Native GBA audio sample rate in Hz.
pub const GBA_SAMPLE_RATE: u32 = 32768;

} // verus!
