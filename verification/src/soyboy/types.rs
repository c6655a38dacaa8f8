//! The quantized sample and the interface of a source of samples.

use vstd::prelude::*;

use crate::soyboy::constants::{HALF, ONE};

verus! {

/// Lowest level of a quantized sample.
pub const I4_MIN: i8 = -8;

/// Highest level of a quantized sample.
pub const I4_MAX: i8 = 7;

/// Number of levels of a quantized sample.
pub const I4_RANGE: i8 = 16;

/// Rounds a count of millionths to the nearest whole number, halves away from
/// zero.
pub open spec fn spec_round(value: int) -> int {
    if value >= 0 {
        (value + HALF) / (ONE as int)
    } else {
        -((-value + HALF) / (ONE as int))
    }
}

/// The level that stands for `value` millionths: the nearest whole number,
/// held to the sixteen levels from -8 to 7.
pub open spec fn spec_quantize(value: int) -> int {
    let nearest = spec_round(value);
    if nearest < I4_MIN {
        I4_MIN as int
    } else if nearest > I4_MAX {
        I4_MAX as int
    } else {
        nearest
    }
}

/// A signed four-bit sample: one of the sixteen levels from -8 to 7.
#[derive(Clone, Copy, Debug, PartialEq, Eq, Structural)]
pub struct I4 {
    level: i8,
}

impl View for I4 {
    type V = int;

    /// The level, from -8 to 7.
    closed spec fn view(&self) -> int {
        self.level as int
    }
}

impl I4 {
    /// Every sample holds one of the sixteen levels.
    #[verifier::type_invariant]
    pub open spec fn wf(self) -> bool {
        I4_MIN <= self@ <= I4_MAX
    }

    /// The sample at `level`, held to the representable range.
    pub fn new(level: i8) -> (sample: I4)
        ensures
            sample.wf(),
            sample@ == if level < I4_MIN {
                I4_MIN as int
            } else if level > I4_MAX {
                I4_MAX as int
            } else {
                level as int
            },
    {
        if level < I4_MIN {
            I4 { level: I4_MIN }
        } else if level > I4_MAX {
            I4 { level: I4_MAX }
        } else {
            I4 { level }
        }
    }

    /// Quantizes `value` millionths to the nearest level; what lies outside the
    /// range goes to its nearer end.
    pub fn from_fixed(value: i64) -> (sample: I4)
        ensures
            sample.wf(),
            sample@ == spec_quantize(value as int),
    {
        if value >= (I4_MAX as i64) * ONE {
            I4 { level: I4_MAX }
        } else if value <= (I4_MIN as i64) * ONE {
            I4 { level: I4_MIN }
        } else if value >= 0 {
            let nearest: i64 = (value + HALF) / ONE;
            I4 { level: nearest as i8 }
        } else {
            let nearest: i64 = (-value + HALF) / ONE;
            I4 { level: (-nearest) as i8 }
        }
    }

    /// The sample that stands for a normalized `value`, where `ONE` is the
    /// highest level: `value` times `I4_MAX`, quantized.
    pub fn from_normalized(value: i64) -> (sample: I4)
        ensures
            sample.wf(),
            sample@ == spec_quantize(value * I4_MAX),
    {
        if value >= 2 * ONE {
            I4 { level: I4_MAX }
        } else if value <= -2 * ONE {
            I4 { level: I4_MIN }
        } else {
            I4::from_fixed(value * (I4_MAX as i64))
        }
    }

    /// The level as a byte. Nothing is lost.
    pub fn to_i8(self) -> (level: i8)
        ensures
            level == self@,
            I4_MIN <= level <= I4_MAX,
    {
        proof {
            use_type_invariant(&self);
        }
        self.level
    }

    /// The level in millionths. Nothing is lost: quantizing the result gives
    /// the sample back.
    pub fn to_fixed(self) -> (value: i64)
        ensures
            value == self@ * ONE,
            spec_quantize(value as int) == self@,
    {
        proof {
            use_type_invariant(&self);
        }
        (self.level as i64) * ONE
    }
}

/// A source of samples of type `T`, pulled one at a time.
pub trait AudioProcessor<T> {
    /// Produces the next sample at `sample_rate` Hz. The result depends on
    /// nothing but what the component holds and the sample rate.
    fn process(&mut self, sample_rate: u32) -> (sample: T)
        requires
            sample_rate > 0,
    ;

    /// Sets the frequency that the following samples are produced at, in
    /// millionths of a hertz. A component without a pitch changes nothing.
    fn set_freq(&mut self, freq: i64);
}

} // verus!
