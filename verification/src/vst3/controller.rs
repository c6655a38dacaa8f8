//! The decisions of the edit controller that need nothing of the host.

use vstd::prelude::*;

use crate::soyboy::parameters::Parameter;
use crate::vst3::utils::str_eq;

verus! {

/// The MIDI controller number that stands for the pitch bend wheel.
pub const MIDI_PITCH_BEND: i16 = 129;

/// The parameter that the MIDI controller `midi_cc_number` moves: the pitch
/// bend wheel moves the pitch bend, and no other controller is assigned.
pub fn get_midi_controller_assignment(midi_cc_number: i16) -> (param_id: Option<u32>)
    ensures
        param_id == if midi_cc_number == MIDI_PITCH_BEND {
            Some(Parameter::PitchBend.spec_id())
        } else {
            None
        },
{
    match midi_cc_number {
        129 => Some(Parameter::PitchBend.id()),
        _ => None,
    }
}

/// Whether `name` asks for the editor's view.
pub fn is_editor_view(name: &str) -> (editor: bool)
    ensures
        editor == (name@ == "editor"@),
{
    str_eq(name, "editor")
}

} // verus!
