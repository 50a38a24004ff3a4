//! Auto-gain control: maps a noisy, unbounded volume signal to a bounded,
//! smoothly decaying visual intensity.
//!
//! Quantities are fixed-point integers in millionths of a unit: an intensity
//! of one unit is `SCALE`, a gain of one hundred is `MAX_GAIN`, and a time
//! delta is counted in millionths of a second.

use vstd::prelude::*;

verus! {

/// One unit in the fixed-point encoding (a millionth counts as 1).
pub const SCALE: u64 = 1_000_000;

/// The gain multiplier is capped at one hundred units.
pub const MAX_GAIN: u64 = 100_000_000;

/// Time constant, in seconds, of both the linear decay toward silence and
/// the slow upward gain ramp.
pub const RISE_DECAY_SECONDS: u64 = 20;

/// Intensity published before any sample has ever arrived: 0.8 units.
pub const INITIAL_INTENSITY: u64 = 800_000;

/// Intensity left after `dt` of silence: the previous intensity loses
/// `dt / 20` and stops at zero.
pub open spec fn spec_decay(last: int, dt: int) -> int {
    if last - dt / (RISE_DECAY_SECONDS as int) >= 0 {
        last - dt / (RISE_DECAY_SECONDS as int)
    } else {
        0
    }
}

/// The candidate intensity of one step before clipping: a present sample is
/// amplified by the current gain, a missing one decays the previous value.
pub open spec fn spec_candidate(last: int, gain: int, raw: Option<u64>, dt: int) -> int {
    match raw {
        Some(r) => (r as int) * gain / (SCALE as int),
        None => spec_decay(last, dt),
    }
}

/// The intensity one step publishes: the candidate, clipped to one unit.
pub open spec fn spec_step_intensity(last: int, gain: int, raw: Option<u64>, dt: int) -> int {
    let c = spec_candidate(last, gain, raw, dt);
    if c > SCALE as int {
        SCALE as int
    } else {
        c
    }
}

/// The gain multiplier after one step: rescaled down so that a clipping
/// candidate would have come out at exactly one unit; slowly ramped up,
/// capped at `MAX_GAIN`, while a usable non-saturating signal is present;
/// untouched at the silence floor.
pub open spec fn spec_step_gain(last: int, gain: int, raw: Option<u64>, dt: int) -> int {
    let c = spec_candidate(last, gain, raw, dt);
    if c > SCALE as int {
        gain * (SCALE as int) / c
    } else if c != 0 {
        if gain + dt / (RISE_DECAY_SECONDS as int) <= MAX_GAIN as int {
            gain + dt / (RISE_DECAY_SECONDS as int)
        } else {
            MAX_GAIN as int
        }
    } else {
        gain
    }
}

/// Bounded, self-calibrating intensity state: the last published intensity
/// and the adaptive gain applied to incoming samples.
#[derive(Clone, Copy, PartialEq, Debug)]
pub struct IntensityController {
    pub last_intensity: u64,
    pub gain_multiplier: u64,
}

impl IntensityController {
    /// The published intensity never exceeds one unit and the gain never
    /// exceeds its hundredfold cap.
    pub open spec fn wf(self) -> bool {
        &&& self.last_intensity <= SCALE
        &&& self.gain_multiplier <= MAX_GAIN
    }

    /// Starts at the seed intensity of 0.8 units with a neutral gain of one.
    pub fn new() -> (c: Self)
        ensures
            c.last_intensity == INITIAL_INTENSITY,
            c.gain_multiplier == SCALE,
            c.wf(),
    {
        IntensityController { last_intensity: INITIAL_INTENSITY, gain_multiplier: SCALE }
    }

    /// One per-frame update: consumes an optional raw volume sample and the
    /// elapsed time, publishes the intensity for this frame and adapts the
    /// gain.
    pub fn step(&mut self, raw: Option<u64>, dt: u64) -> (out: u64)
        requires
            old(self).wf(),
        ensures
            out == spec_step_intensity(
                old(self).last_intensity as int,
                old(self).gain_multiplier as int,
                raw,
                dt as int,
            ),
            final(self).last_intensity == out,
            final(self).gain_multiplier == spec_step_gain(
                old(self).last_intensity as int,
                old(self).gain_multiplier as int,
                raw,
                dt as int,
            ),
            final(self).wf(),
    {
        let last = self.last_intensity;
        let gain = self.gain_multiplier;
        let ramp = dt / RISE_DECAY_SECONDS;
        let candidate: u128 = match raw {
            Some(r) => {
                proof {
                    assert((r as int) * (gain as int) <= u128::MAX as int) by (nonlinear_arith)
                        requires
                            r <= u64::MAX,
                            gain <= MAX_GAIN,
                    ;
                }
                (r as u128) * (gain as u128) / (SCALE as u128)
            }
            None => {
                if last >= ramp {
                    (last - ramp) as u128
                } else {
                    0u128
                }
            }
        };
        assert(candidate == spec_candidate(last as int, gain as int, raw, dt as int));
        if candidate > SCALE as u128 {
            proof {
                if raw is None {
                    assert(candidate <= last);
                }
                assert(raw is Some);
                if gain == 0 {
                    assert((raw->Some_0 as int) * (gain as int) == 0) by (nonlinear_arith)
                        requires
                            gain as int == 0,
                    ;
                    assert(false);
                }
                vstd::arithmetic::mul::lemma_mul_strict_inequality(
                    SCALE as int,
                    candidate as int,
                    gain as int,
                );
                vstd::arithmetic::div_mod::lemma_multiply_divide_lt(
                    (gain as int) * (SCALE as int),
                    candidate as int,
                    gain as int,
                );
            }
            let scaled: u128 = (gain as u128) * (SCALE as u128);
            let reduced: u128 = scaled / candidate;
            assert(reduced < gain);
            self.gain_multiplier = reduced as u64;
            self.last_intensity = SCALE;
            SCALE
        } else {
            let c = candidate as u64;
            if c != 0 {
                proof {
                    vstd::arithmetic::div_mod::lemma_div_is_ordered(
                        dt as int,
                        u64::MAX as int,
                        RISE_DECAY_SECONDS as int,
                    );
                }
                let bumped = gain + ramp;
                self.gain_multiplier = if bumped > MAX_GAIN {
                    MAX_GAIN
                } else {
                    bumped
                };
            }
            self.last_intensity = c;
            c
        }
    }
}

/// With no sample, a step publishes `max(last - dt/20, 0)`: intensity decays
/// linearly toward silence and never goes negative, whatever the gain.
pub proof fn lemma_decay_step(last: int, gain: int, dt: int)
    requires
        0 <= dt,
        0 <= last <= SCALE as int,
    ensures
        spec_step_intensity(last, gain, None, dt) == vstd::math::max(
            last - dt / (RISE_DECAY_SECONDS as int),
            0,
        ),
        spec_step_intensity(last, gain, None, dt) >= 0,
{
    vstd::arithmetic::div_mod::lemma_div_pos_is_pos(dt, RISE_DECAY_SECONDS as int);
}

/// Whatever arrives, the published intensity lies in `[0, 1]` units.
pub proof fn lemma_intensity_bounded(last: int, gain: int, raw: Option<u64>, dt: int)
    requires
        0 <= last <= SCALE as int,
        0 <= gain,
        0 <= dt,
    ensures
        0 <= spec_step_intensity(last, gain, raw, dt) <= SCALE as int,
{
    match raw {
        Some(r) => {
            vstd::arithmetic::mul::lemma_mul_nonnegative(r as int, gain);
            vstd::arithmetic::div_mod::lemma_div_pos_is_pos((r as int) * gain, SCALE as int);
        }
        None => {
            vstd::arithmetic::div_mod::lemma_div_pos_is_pos(dt, RISE_DECAY_SECONDS as int);
        }
    }
}

/// When a sample amplified by the current gain exceeds one unit, the step
/// publishes exactly one unit and the stored gain strictly decreases.
pub proof fn lemma_clipping_reduces_gain(last: int, gain: int, r: u64, dt: int)
    requires
        0 <= gain <= MAX_GAIN,
        (r as int) * gain / (SCALE as int) > SCALE as int,
    ensures
        spec_step_intensity(last, gain, Some(r), dt) == SCALE as int,
        spec_step_gain(last, gain, Some(r), dt) < gain,
{
    let c = spec_candidate(last, gain, Some(r), dt);
    assert(gain > 0) by {
        if gain == 0 {
            assert((r as int) * gain == 0) by (nonlinear_arith)
                requires
                    gain == 0,
            ;
        }
    }
    vstd::arithmetic::mul::lemma_mul_strict_inequality(SCALE as int, c, gain);
    vstd::arithmetic::div_mod::lemma_multiply_divide_lt(gain * (SCALE as int), c, gain);
}

/// The gain multiplier never leaves `[0, MAX_GAIN]`: the rising branch is
/// clamped at the cap and the clipping branch only reduces it.
pub proof fn lemma_gain_never_exceeds_cap(last: int, gain: int, raw: Option<u64>, dt: int)
    requires
        0 <= gain <= MAX_GAIN,
        0 <= last <= SCALE as int,
        0 <= dt,
    ensures
        0 <= spec_step_gain(last, gain, raw, dt) <= MAX_GAIN,
        spec_candidate(last, gain, raw, dt) > SCALE as int ==> spec_step_gain(
            last,
            gain,
            raw,
            dt,
        ) < gain,
{
    let c = spec_candidate(last, gain, raw, dt);
    if c > SCALE as int {
        assert(gain > 0) by {
            if gain == 0 {
                if raw is Some {
                    assert((raw->Some_0 as int) * gain == 0) by (nonlinear_arith)
                        requires
                            gain == 0,
                    ;
                }
            }
        }
        vstd::arithmetic::mul::lemma_mul_strict_inequality(SCALE as int, c, gain);
        vstd::arithmetic::div_mod::lemma_multiply_divide_lt(gain * (SCALE as int), c, gain);
        vstd::arithmetic::div_mod::lemma_div_pos_is_pos(gain * (SCALE as int), c);
        vstd::arithmetic::mul::lemma_mul_nonnegative(gain, SCALE as int);
    } else if c != 0 {
        vstd::arithmetic::div_mod::lemma_div_pos_is_pos(dt, RISE_DECAY_SECONDS as int);
    }
}

/// A gain that sits in the working band of one to one hundred units stays
/// there through any step whose candidate does not clip. (Clipping can push
/// the gain below one unit: a sample of 1.5 units against a neutral gain
/// leaves two thirds of a unit behind.)
pub proof fn lemma_gain_band_without_clipping(last: int, gain: int, raw: Option<u64>, dt: int)
    requires
        SCALE as int <= gain <= MAX_GAIN,
        0 <= dt,
        spec_candidate(last, gain, raw, dt) <= SCALE as int,
    ensures
        SCALE as int <= spec_step_gain(last, gain, raw, dt) <= MAX_GAIN,
{
    vstd::arithmetic::div_mod::lemma_div_pos_is_pos(dt, RISE_DECAY_SECONDS as int);
}

/// Once the decay has reached the silence floor, the gain is left untouched.
pub proof fn lemma_silence_floor_leaves_gain(last: int, gain: int, dt: int)
    requires
        0 <= last <= dt / (RISE_DECAY_SECONDS as int),
    ensures
        spec_step_intensity(last, gain, None, dt) == 0,
        spec_step_gain(last, gain, None, dt) == gain,
{
}

} // verus!

