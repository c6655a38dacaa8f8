//! Arithmetic on millionths: ramps, interpolation and loudness.

use vstd::prelude::*;

use crate::soyboy::constants::{LOUDNESS_STEPS, ONE};

verus! {

/// `value`, held to the range from `low` to `high`.
pub open spec fn spec_clamp(value: int, low: int, high: int) -> int {
    if value < low {
        low
    } else if value > high {
        high
    } else {
        value
    }
}

/// Holds `value` to the range from `low` to `high`.
pub fn clamp(value: i64, low: i64, high: i64) -> (held: i64)
    requires
        low <= high,
    ensures
        held == spec_clamp(value as int, low as int, high as int),
        low <= held <= high,
{
    if value < low {
        low
    } else if value > high {
        high
    } else {
        value
    }
}

/// Whether `elapsed` samples at `sample_rate` Hz last longer than `duration`
/// microseconds: the exact comparison `elapsed / sample_rate > duration`, in
/// seconds, with nothing rounded.
pub open spec fn spec_outlasts(elapsed: int, sample_rate: int, duration: int) -> bool {
    elapsed * ONE > duration * sample_rate
}

/// Whether `elapsed` samples at `sample_rate` Hz last longer than `duration`
/// microseconds.
pub fn outlasts(elapsed: u64, sample_rate: u32, duration: i64) -> (longer: bool)
    ensures
        longer == spec_outlasts(elapsed as int, sample_rate as int, duration as int),
{
    let played: i128 = (elapsed as i128) * 1_000_000;
    let asked: i128 = widen_product(duration, sample_rate);
    played > asked
}

/// The product of a 64-bit and a 32-bit number, which 128 bits always hold.
fn widen_product(a: i64, b: u32) -> (product: i128)
    ensures
        product == a * b,
{
    assert(-0x8000_0000_0000_0000 * 0x1_0000_0000 <= a * b <= 0x8000_0000_0000_0000
        * 0x1_0000_0000) by (nonlinear_arith)
        requires
            -0x8000_0000_0000_0000 <= a < 0x8000_0000_0000_0000,
            0 <= b < 0x1_0000_0000,
    ;
    (a as i128) * (b as i128)
}

/// How far a linear ramp of `duration` microseconds has come after `elapsed`
/// samples at `sample_rate` Hz, in millionths: the quotient of the two times,
/// rounded down, and `ONE` from the end of the ramp on. A ramp of no length is
/// at its end from the first sample.
pub open spec fn spec_linear(elapsed: int, sample_rate: int, duration: int) -> int {
    if elapsed * ONE >= duration * sample_rate {
        ONE as int
    } else {
        (elapsed * ONE * ONE) / (duration * sample_rate)
    }
}

/// A ramp position lies between 0 and `ONE`, and below `ONE` before the end of
/// the ramp.
pub proof fn lemma_linear_bounds(elapsed: int, sample_rate: int, duration: int)
    requires
        0 <= elapsed,
    ensures
        0 <= spec_linear(elapsed, sample_rate, duration) <= ONE,
        elapsed * ONE < duration * sample_rate ==> spec_linear(elapsed, sample_rate, duration)
            < ONE,
        elapsed == 0 && 0 < duration * sample_rate ==> spec_linear(
            elapsed,
            sample_rate,
            duration,
        ) == 0,
{
    let played = elapsed * ONE;
    let asked = duration * sample_rate;
    if played < asked {
        assert(0 <= (played * ONE) / asked < ONE) by (nonlinear_arith)
            requires
                0 <= played < asked,
        ;
        assert(elapsed * ONE * ONE == played * ONE);
        if elapsed == 0 {
            assert((0 * ONE) / asked == 0) by (nonlinear_arith)
                requires
                    0 < asked,
            ;
        }
    }
}

/// A ramp never goes back: more samples give a position at least as far.
pub proof fn lemma_linear_monotone(earlier: int, later: int, sample_rate: int, duration: int)
    requires
        0 <= earlier <= later,
    ensures
        spec_linear(earlier, sample_rate, duration) <= spec_linear(later, sample_rate, duration),
{
    let asked = duration * sample_rate;
    lemma_linear_bounds(earlier, sample_rate, duration);
    lemma_linear_bounds(later, sample_rate, duration);
    if later * ONE < asked {
        assert((earlier * ONE * ONE) / asked <= (later * ONE * ONE) / asked)
            by (nonlinear_arith)
            requires
                0 <= earlier <= later,
                0 < asked,
                ONE == 1_000_000,
        ;
    }
}

/// On the last sample that a ramp of `span` millionths of a sample does not
/// outlast, the position is within one sample's share of the ramp of its end.
pub proof fn lemma_linear_last_step(elapsed: int, span: int)
    requires
        0 < span,
        elapsed == span / (ONE as int),
    ensures
        elapsed * ONE < span ==> ONE - (elapsed * ONE * ONE) / span <= (ONE * ONE) / span + 1,
{
    if elapsed * ONE < span {
        let step = (ONE * ONE) / span;
        let position = (elapsed * ONE * ONE) / span;
        assert(span - ONE < elapsed * ONE);
        assert(position >= ONE - step - 1) by (nonlinear_arith)
            requires
                0 < span,
                span - ONE < elapsed * ONE,
                0 <= elapsed,
                ONE == 1_000_000,
                step == (ONE * ONE) / span,
                position == (elapsed * ONE * ONE) / span,
        ;
    }
}

/// How far a linear ramp of `duration` microseconds has come after `elapsed`
/// samples at `sample_rate` Hz, in millionths.
pub fn linear(elapsed: u64, sample_rate: u32, duration: i64) -> (position: i64)
    ensures
        position == spec_linear(elapsed as int, sample_rate as int, duration as int),
        0 <= position <= ONE,
{
    let played: i128 = (elapsed as i128) * 1_000_000;
    let asked: i128 = widen_product(duration, sample_rate);
    proof {
        lemma_linear_bounds(elapsed as int, sample_rate as int, duration as int);
    }
    if played >= asked {
        ONE
    } else {
        let scaled: i128 = played * 1_000_000;
        assert(elapsed * ONE * ONE == scaled);
        (scaled / asked) as i64
    }
}

/// The value at `position` millionths of the way from `from` to `to`, rounded
/// toward `from`. A position outside the range from 0 to `ONE` counts as its
/// nearer end.
pub open spec fn spec_interpolate(from: int, to: int, position: int) -> int {
    let covered = spec_clamp(position, 0, ONE as int);
    if to >= from {
        from + ((to - from) * covered) / (ONE as int)
    } else {
        from - ((from - to) * covered) / (ONE as int)
    }
}

/// An interpolated value lies between its two ends, and is one of them at
/// either end of the way.
pub proof fn lemma_interpolate_bounds(from: int, to: int, position: int)
    ensures
        from <= to ==> from <= spec_interpolate(from, to, position) <= to,
        to <= from ==> to <= spec_interpolate(from, to, position) <= from,
        position <= 0 ==> spec_interpolate(from, to, position) == from,
        position >= ONE ==> spec_interpolate(from, to, position) == to,
{
    let covered = spec_clamp(position, 0, ONE as int);
    let span = if to >= from {
        to - from
    } else {
        from - to
    };
    assert(0 <= (span * covered) / (ONE as int) <= span) by (nonlinear_arith)
        requires
            0 <= span,
            0 <= covered <= ONE,
            ONE == 1_000_000,
    ;
    assert(covered == 0 ==> (span * covered) / (ONE as int) == 0) by (nonlinear_arith)
        requires
            ONE == 1_000_000,
    ;
    assert(covered == ONE ==> (span * covered) / (ONE as int) == span) by (nonlinear_arith)
        requires
            ONE == 1_000_000,
    ;
}

/// Further along the way, an interpolated value is no nearer to where it
/// started.
pub proof fn lemma_interpolate_monotone(from: int, to: int, nearer: int, further: int)
    requires
        nearer <= further,
    ensures
        from <= to ==> spec_interpolate(from, to, nearer) <= spec_interpolate(from, to, further),
        to <= from ==> spec_interpolate(from, to, further) <= spec_interpolate(from, to, nearer),
{
    let a = spec_clamp(nearer, 0, ONE as int);
    let b = spec_clamp(further, 0, ONE as int);
    let span = if to >= from {
        to - from
    } else {
        from - to
    };
    assert((span * a) / (ONE as int) <= (span * b) / (ONE as int)) by (nonlinear_arith)
        requires
            0 <= span,
            0 <= a <= b,
            ONE == 1_000_000,
    ;
    assert(span == 0 ==> (span * a) / (ONE as int) == 0 && (span * b) / (ONE as int) == 0)
        by (nonlinear_arith)
        requires
            ONE == 1_000_000,
    ;
}

/// The value at `position` millionths of the way from `from` to `to`.
pub fn interpolate(from: i64, to: i64, position: i64) -> (value: i64)
    ensures
        value == spec_interpolate(from as int, to as int, position as int),
        from <= to ==> from <= value <= to,
        to <= from ==> to <= value <= from,
{
    let covered: i128 = clamp(position, 0, ONE) as i128;
    proof {
        lemma_interpolate_bounds(from as int, to as int, position as int);
    }
    if to >= from {
        let span: i128 = (to as i128) - (from as i128);
        assert(0 <= span * covered <= 0x1_0000_0000_0000_0000 * 1_000_000) by (nonlinear_arith)
            requires
                0 <= span <= 0x1_0000_0000_0000_0000,
                0 <= covered <= 1_000_000,
        ;
        ((from as i128) + (span * covered) / 1_000_000) as i64
    } else {
        let span: i128 = (from as i128) - (to as i128);
        assert(0 <= span * covered <= 0x1_0000_0000_0000_0000 * 1_000_000) by (nonlinear_arith)
            requires
                0 <= span <= 0x1_0000_0000_0000_0000,
                0 <= covered <= 1_000_000,
        ;
        ((from as i128) - (span * covered) / 1_000_000) as i64
    }
}

/// The loudness step at or below `gain`: the range from 0 to `ONE` is divided
/// into `LOUDNESS_STEPS` equal steps, and a gain outside it counts as its
/// nearer end.
pub open spec fn spec_discrete_loudness(gain: int) -> int {
    let held = spec_clamp(gain, 0, ONE as int);
    (held * LOUDNESS_STEPS / (ONE as int)) * (ONE / LOUDNESS_STEPS)
}

/// A loudness step lies between 0 and the gain that it was snapped from, and
/// the ends of the range are steps themselves.
pub proof fn lemma_discrete_loudness_bounds(gain: int)
    ensures
        0 <= spec_discrete_loudness(gain) <= spec_clamp(gain, 0, ONE as int),
        gain <= 0 ==> spec_discrete_loudness(gain) == 0,
        gain >= ONE ==> spec_discrete_loudness(gain) == ONE,
{
    let held = spec_clamp(gain, 0, ONE as int);
    let step = held * LOUDNESS_STEPS / (ONE as int);
    assert(ONE / LOUDNESS_STEPS == 62_500);
    assert(held * LOUDNESS_STEPS == held * 16);
    assert(spec_discrete_loudness(gain) == step * 62_500);
}

/// Snaps `gain` down to its loudness step.
pub fn discrete_loudness(gain: i64) -> (stepped: i64)
    ensures
        stepped == spec_discrete_loudness(gain as int),
        0 <= stepped <= ONE,
        stepped <= spec_clamp(gain as int, 0, ONE as int),
{
    let held: i64 = clamp(gain, 0, ONE);
    let step: i64 = held * LOUDNESS_STEPS / ONE;
    step * (ONE / LOUDNESS_STEPS)
}

/// The loudness that a note of `velocity` is played at: the square of the
/// velocity, rounded down. A velocity outside the range from 0 to `ONE` counts
/// as its nearer end.
pub open spec fn spec_level_from_velocity(velocity: int) -> int {
    let held = spec_clamp(velocity, 0, ONE as int);
    (held * held) / (ONE as int)
}

/// The loudness that a note of `velocity` is played at.
pub fn level_from_velocity(velocity: i64) -> (level: i64)
    ensures
        level == spec_level_from_velocity(velocity as int),
        0 <= level <= ONE,
{
    let held: i64 = clamp(velocity, 0, ONE);
    assert(0 <= held * held <= 1_000_000 * 1_000_000) by (nonlinear_arith)
        requires
            0 <= held <= 1_000_000,
    ;
    (held * held) / ONE
}

/// `gain` scaled by `level`, both in millionths, rounded down.
pub open spec fn spec_scale(gain: int, level: int) -> int {
    (gain * level) / (ONE as int)
}

/// Scales `gain` by `level`, both between 0 and `ONE`.
pub fn scale(gain: i64, level: i64) -> (scaled: i64)
    requires
        0 <= gain <= ONE,
        0 <= level <= ONE,
    ensures
        scaled == spec_scale(gain as int, level as int),
        0 <= scaled <= gain,
{
    assert(0 <= gain * level <= gain * 1_000_000) by (nonlinear_arith)
        requires
            0 <= gain <= 1_000_000,
            0 <= level <= 1_000_000,
    ;
    (gain * level) / ONE
}

/// A stepped and scaled gain lies between 0 and `ONE`.
pub proof fn lemma_output_bounds(gain: int, velocity: int)
    ensures
        0 <= spec_discrete_loudness(gain) <= ONE,
        0 <= spec_level_from_velocity(velocity) <= ONE,
        0 <= spec_scale(spec_discrete_loudness(gain), spec_level_from_velocity(velocity)) <= ONE,
{
    let held = spec_clamp(velocity, 0, ONE as int);
    assert(0 <= (held * held) / (ONE as int) <= ONE) by (nonlinear_arith)
        requires
            0 <= held <= ONE,
            ONE == 1_000_000,
    ;
    let stepped = spec_discrete_loudness(gain);
    let level = spec_level_from_velocity(velocity);
    lemma_discrete_loudness_bounds(gain);
    assert(0 <= (stepped * level) / (ONE as int) <= ONE) by (nonlinear_arith)
        requires
            0 <= stepped <= ONE,
            0 <= level <= ONE,
            ONE == 1_000_000,
    ;
}

} // verus!
