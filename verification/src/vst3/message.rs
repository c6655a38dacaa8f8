//! The messages between the sound engine and its editor, and how they are
//! told apart by their identifiers.

use vstd::prelude::*;

use crate::vst3::utils::str_eq;

verus! {

/// A message between the sound engine and its editor.
#[derive(Clone, Copy, Debug)]
pub enum Vst3Message {
    /// A note was played.
    NoteOn,
    /// The wavetable is to be filled with random levels.
    RandomizeWaveTable,
    /// A snapshot of the wavetable is asked for.
    WaveTableRequested,
    /// A snapshot of the wavetable: one byte for each entry, in ascending
    /// order of the index.
    WaveTableData([i8; 32]),
}

impl Vst3Message {
    /// The identifier that a message of this kind travels under.
    pub open spec fn spec_id(self) -> Seq<char> {
        match self {
            Vst3Message::NoteOn => "vst3:note-on"@,
            Vst3Message::RandomizeWaveTable => "vst3:randomize-wavetable"@,
            Vst3Message::WaveTableData(_) => "vst3:wavetable-data"@,
            Vst3Message::WaveTableRequested => "vst3:wavetable-requested"@,
        }
    }

    /// The payload that the message carries: the bytes of a snapshot, and
    /// nothing for every other message.
    pub open spec fn spec_payload(self) -> Option<[i8; 32]> {
        match self {
            Vst3Message::WaveTableData(snapshot) => Some(snapshot),
            _ => None,
        }
    }

    /// What the identifier `id` and the payload `table` read as. An
    /// identifier that stands for no message reads as nothing; only a
    /// snapshot takes the payload.
    pub open spec fn spec_from_message(id: Seq<char>, table: [i8; 32]) -> Option<Vst3Message> {
        if id == "vst3:note-on"@ {
            Some(Vst3Message::NoteOn)
        } else if id == "vst3:randomize-wavetable"@ {
            Some(Vst3Message::RandomizeWaveTable)
        } else if id == "vst3:wavetable-data"@ {
            Some(Vst3Message::WaveTableData(table))
        } else if id == "vst3:wavetable-requested"@ {
            Some(Vst3Message::WaveTableRequested)
        } else {
            None
        }
    }

    /// The identifier that the message travels under.
    pub fn id(&self) -> (id: &'static str)
        ensures
            id@ == self.spec_id(),
    {
        match self {
            Vst3Message::NoteOn => "vst3:note-on",
            Vst3Message::RandomizeWaveTable => "vst3:randomize-wavetable",
            Vst3Message::WaveTableData(_) => "vst3:wavetable-data",
            Vst3Message::WaveTableRequested => "vst3:wavetable-requested",
        }
    }

    /// The identifier as an owned string.
    pub fn to_string(&self) -> (id: String)
        ensures
            id@ == self.spec_id(),
    {
        self.id().to_owned()
    }

    /// Whether a message under `id` carries a payload: only a snapshot does.
    pub fn has_payload(id: &str) -> (carried: bool)
        ensures
            carried == (id@ == "vst3:wavetable-data"@),
    {
        str_eq(id, "vst3:wavetable-data")
    }

    /// Reads a message from its identifier and its payload. An identifier
    /// that stands for no message gives `None`; the payload is looked at for
    /// a snapshot alone.
    pub fn from_message(id: &str, table: &[i8; 32]) -> (message: Option<Vst3Message>)
        ensures
            message == Vst3Message::spec_from_message(id@, *table),
            message matches Some(m) ==> m.spec_id() == id@,
    {
        if str_eq(id, "vst3:note-on") {
            Some(Vst3Message::NoteOn)
        } else if str_eq(id, "vst3:randomize-wavetable") {
            Some(Vst3Message::RandomizeWaveTable)
        } else if Vst3Message::has_payload(id) {
            Some(Vst3Message::WaveTableData(*table))
        } else if str_eq(id, "vst3:wavetable-requested") {
            Some(Vst3Message::WaveTableRequested)
        } else {
            None
        }
    }

    /// The payload that the message carries: the bytes of a snapshot, and
    /// nothing for every other message.
    pub fn payload(&self) -> (table: Option<[i8; 32]>)
        ensures
            table == self.spec_payload(),
    {
        match self {
            Vst3Message::WaveTableData(snapshot) => Some(*snapshot),
            _ => None,
        }
    }
}

} // verus!
