//! The sound engine: quantized samples, events, parameters and the three
//! signal sources.

pub mod constants;
pub mod envelope_generator;
pub mod event;
pub mod noise;
pub mod parameters;
pub mod random;
pub mod types;
pub mod utils;
pub mod wave_table;
