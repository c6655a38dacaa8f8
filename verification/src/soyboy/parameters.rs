//! The identifiers of the tunable values and the interface to set and read
//! them.

use vstd::prelude::*;

verus! {

/// The stable identifiers of the tunable values.
#[derive(Clone, Copy, Debug, PartialEq, Eq, Hash, Structural)]
pub enum Parameter {
    /// Bend of the played pitch.
    PitchBend,
    /// Hold time of the noise oscillator, in milliseconds.
    OscNsInterval,
    /// Cursor into the wavetable.
    OscWtTableIndex,
    /// Level of the wavetable entry under the cursor.
    OscWtTableValue,
    /// Attack time of the envelope, in seconds.
    EgAttack,
    /// Decay time of the envelope, in seconds.
    EgDecay,
    /// Sustain level of the envelope.
    EgSustain,
    /// Release time of the envelope, in seconds.
    EgRelease,
}

impl Parameter {
    /// The number that a host knows the parameter by.
    pub open spec fn spec_id(self) -> u32 {
        match self {
            Parameter::PitchBend => 0,
            Parameter::OscNsInterval => 1,
            Parameter::OscWtTableIndex => 2,
            Parameter::OscWtTableValue => 3,
            Parameter::EgAttack => 4,
            Parameter::EgDecay => 5,
            Parameter::EgSustain => 6,
            Parameter::EgRelease => 7,
        }
    }

    /// The parameter that a host knows by `id`, if there is one.
    pub open spec fn spec_from_id(id: u32) -> Option<Parameter> {
        if id == 0 {
            Some(Parameter::PitchBend)
        } else if id == 1 {
            Some(Parameter::OscNsInterval)
        } else if id == 2 {
            Some(Parameter::OscWtTableIndex)
        } else if id == 3 {
            Some(Parameter::OscWtTableValue)
        } else if id == 4 {
            Some(Parameter::EgAttack)
        } else if id == 5 {
            Some(Parameter::EgDecay)
        } else if id == 6 {
            Some(Parameter::EgSustain)
        } else if id == 7 {
            Some(Parameter::EgRelease)
        } else {
            None
        }
    }

    /// The number that a host knows the parameter by.
    #[verifier::when_used_as_spec(spec_id)]
    pub fn id(self) -> (id: u32)
        ensures
            id == self.spec_id(),
    {
        match self {
            Parameter::PitchBend => 0,
            Parameter::OscNsInterval => 1,
            Parameter::OscWtTableIndex => 2,
            Parameter::OscWtTableValue => 3,
            Parameter::EgAttack => 4,
            Parameter::EgDecay => 5,
            Parameter::EgSustain => 6,
            Parameter::EgRelease => 7,
        }
    }

    /// The parameter that a host knows by `id`; `None` for a number that
    /// stands for no parameter.
    pub fn from_id(id: u32) -> (parameter: Option<Parameter>)
        ensures
            parameter == Parameter::spec_from_id(id),
            parameter matches Some(p) ==> p.spec_id() == id,
            parameter is None <==> id > 7,
    {
        match id {
            0 => Some(Parameter::PitchBend),
            1 => Some(Parameter::OscNsInterval),
            2 => Some(Parameter::OscWtTableIndex),
            3 => Some(Parameter::OscWtTableValue),
            4 => Some(Parameter::EgAttack),
            5 => Some(Parameter::EgDecay),
            6 => Some(Parameter::EgSustain),
            7 => Some(Parameter::EgRelease),
            _ => None,
        }
    }

    /// Every parameter, in the order of the numbers.
    pub fn all() -> (list: [Parameter; 8])
        ensures
            forall|i: int| 0 <= i < 8 ==> (#[trigger] list[i]).spec_id() == i,
    {
        [
            Parameter::PitchBend,
            Parameter::OscNsInterval,
            Parameter::OscWtTableIndex,
            Parameter::OscWtTableValue,
            Parameter::EgAttack,
            Parameter::EgDecay,
            Parameter::EgSustain,
            Parameter::EgRelease,
        ]
    }

    /// Every parameter is found again by its number, and no other is.
    pub proof fn lemma_id_round_trip(self, id: u32)
        ensures
            Parameter::spec_from_id(self.spec_id()) == Some(self),
            Parameter::spec_from_id(id) == Some(self) <==> id == self.spec_id(),
    {
    }
}

/// A component whose tunable values are reached by their identifiers. Both
/// operations take every identifier: one that the component does not know is
/// passed over when set and reads as 0.
pub trait Parametric {
    /// Whether the component has a value under `param`.
    spec fn recognizes(param: Parameter) -> bool;

    /// Whether `value` is one that `param` can hold in this component. Only a
    /// parameter that the component has can hold anything.
    spec fn in_domain(param: Parameter, value: int) -> bool;

    /// The value that the component holds under `param`, in millionths; 0 for
    /// a parameter that it does not have.
    spec fn value_of(&self, param: Parameter) -> int;

    /// Sets the value under `param`. A value of the parameter's domain is
    /// read back as it was set, and setting a parameter that the component
    /// does not have changes the value of none.
    fn set_param(&mut self, param: &Parameter, value: i64)
        ensures
            Self::in_domain(*param, value as int) ==> Self::recognizes(*param),
            Self::in_domain(*param, value as int) ==> final(self).value_of(*param) == value,
            !Self::recognizes(*param) ==> forall|other: Parameter|
                #[trigger] final(self).value_of(other) == old(self).value_of(other),
    ;

    /// The value under `param`; 0 for a parameter that the component does not
    /// have.
    fn get_param(&self, param: &Parameter) -> (value: i64)
        ensures
            value == self.value_of(*param),
            !Self::recognizes(*param) ==> value == 0,
    ;
}

} // verus!
