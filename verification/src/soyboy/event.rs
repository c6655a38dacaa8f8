//! The events that a performance or an editor sends to the engine.

use vstd::prelude::*;

verus! {

/// A discrete performance or editing event. Velocities, ratios and table
/// values are counts of millionths.
#[derive(Clone, Copy, Debug, PartialEq, Eq, Structural)]
pub enum Event {
    /// A key goes down, with a velocity between 0 and `ONE`.
    NoteOn { note: u16, velocity: i64 },
    /// A key goes up.
    NoteOff { note: u16 },
    /// The pitch is bent to `ratio` times the note's frequency.
    PitchBend { ratio: i64 },
    /// One entry of the wavetable is set from a value between `-ONE` and `ONE`.
    SetWaveTable { idx: usize, value: i64 },
    /// The wavetable is set to one cycle of a sine.
    ResetWaveTableAsSine,
    /// The wavetable is filled with random levels.
    ResetWaveTableAtRandom,
}

/// A component that discrete events are applied to.
pub trait Triggered {
    /// Applies one event. An event that does not concern the component
    /// changes nothing.
    fn trigger(&mut self, event: &Event);
}

} // verus!
