//! The source of random numbers and the way a draw becomes a number of the
//! unit interval.

use vstd::prelude::*;

use crate::soyboy::constants::ONE;

verus! {

/// Draws one 32-bit number from the thread's random generator, by
/// `rand::random::<u32>()`. Any number may come back, and two draws need not
/// agree: nothing is claimed of the result.
#[verifier::external_body]
pub(crate) fn random_u32() -> (raw: u32) {
    rand::random::<u32>()
}

/// The number of the unit interval that a draw stands for, in millionths: the
/// draw's share of the 32-bit range, rounded down. It is at least 0 and less
/// than `ONE`.
pub open spec fn spec_unit_from_random(raw: u32) -> int {
    (raw * ONE) / 0x1_0000_0000
}

/// Maps a draw onto the unit interval.
pub fn unit_from_random(raw: u32) -> (unit: i64)
    ensures
        unit == spec_unit_from_random(raw),
        0 <= unit < ONE,
{
    (((raw as u64) * 1_000_000) / 0x1_0000_0000) as i64
}

} // verus!
