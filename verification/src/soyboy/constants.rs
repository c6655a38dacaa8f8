//! The scale of the fixed-point numbers and the sizes of the tables.

use vstd::prelude::*;

verus! {

/// The fixed-point scale: a real quantity `x` is held as the integer `x * ONE`,
/// a count of millionths. Seconds become microseconds, milliseconds become
/// nanoseconds, a gain of 1.0 becomes `ONE`.
pub const ONE: i64 = 1_000_000;

/// Half of `ONE`, the rounding threshold of a quantization.
pub const HALF: i64 = 500_000;

/// Longest time constant that a parameter can hold, in microseconds.
pub const DURATION_MAX: i64 = 0xFFFF_FFFF;

/// Longest hold time that the noise oscillator can be set to, in nanoseconds.
pub const INTERVAL_MAX: i64 = 0xFFFF_FFFF;

/// Largest pitch bend ratio that the wavetable oscillator can hold, in
/// millionths.
pub const PITCH_MAX: i64 = 0xFFFF_FFFF;

/// Nanoseconds in one second.
pub const NANOS_PER_SECOND: u64 = 1_000_000_000;

/// Number of entries of the wavetable oscillator's table.
pub const WAVETABLE_SIZE: usize = 32;

/// Number of entries of the noise oscillator's table.
pub const NOISE_TABLE_SIZE: usize = 8192;

/// Number of equal steps into which the loudness range is divided.
pub const LOUDNESS_STEPS: i64 = 16;

} // verus!
