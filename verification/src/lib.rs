//! A stepped, coarsely quantized sound engine in the manner of early handheld
//! sound hardware: an ADSR amplitude envelope, a sample-and-hold noise
//! oscillator and a wavetable oscillator with a table that can be edited while
//! it plays, together with the plain-value logic of the plugin shell around
//! them.
//!
//! # Numbers
//!
//! Every real-valued quantity is held as an integer count of millionths, so
//! that each operation has one exact result that the contracts can state:
//!
//! - a gain, a velocity or a normalized value of 1.0 is `ONE`;
//! - a time in seconds is a count of microseconds, a time in milliseconds a
//!   count of nanoseconds;
//! - a frequency is a count of millionths of a hertz, a phase a count of
//!   millionths of a table entry;
//! - a sample rate is a whole number of hertz.
//!
//! Where a quotient is not whole it is rounded down, and a value that is set
//! from outside its domain goes to the nearer end of the domain.
//!
//! # Models
//!
//! Each component has a model of mathematical integers as its view, and each
//! operation has a function on the model that says what it does. The
//! executable operations are proved to follow their model functions, and the
//! laws of a component are proved of its model: how long a stage of the
//! envelope lasts, that silence stays silent, that the phase of the wavetable
//! is a sum modulo the table's length, that the noise holds each entry for
//! its interval, and that a parameter is read back as it was set.

pub mod soyboy;
pub mod vst3;
