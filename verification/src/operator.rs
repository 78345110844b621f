//! Per-operator control state: frequency mode, waveform choice, and the
//! oscillator phase accumulator.
//!
//! An operator combines a waveform generator with an envelope.  The waveform
//! sample itself is floating-point math done by the caller; decided and
//! verified here are the discrete choices a mutation draws (mode, waveform)
//! and the phase accumulator, kept as a binary fraction of one cycle so that
//! wraparound is exact integer arithmetic.

use vstd::prelude::*;
use crate::rng::gen_u64_range;

verus! {

/// How an operator derives its oscillator frequency: Ratio scales the shared
/// key frequency by the tuning, Fixed uses the tuning as an absolute
/// frequency and ignores the key.
#[derive(Clone, Copy, Debug, PartialEq, Eq, Structural)]
pub enum OperatorMode {
    Ratio,
    Fixed,
}

/// The operator's waveform kind.
#[derive(Clone, Copy, Debug, PartialEq, Eq, Structural)]
pub enum OperatorWaveform {
    Sine,
    Square,
    Saw,
}

/// One full oscillator cycle, as the unit of the fixed-point phase
/// accumulator: a phase is a value in `[0, PHASE_ONE)`, the fraction of the
/// cycle completed.
pub const PHASE_ONE: u64 = 0x1_0000_0000;

/// The waveform a mutation draw selects: draws 0 and 1 pick Sine and Square,
/// every other draw picks Saw.
pub open spec fn spec_waveform_from_draw(d: u64) -> OperatorWaveform {
    if d == 0 {
        OperatorWaveform::Sine
    } else if d == 1 {
        OperatorWaveform::Square
    } else {
        OperatorWaveform::Saw
    }
}

/// Map a mutation draw to the waveform it selects.
pub fn waveform_from_draw(d: u64) -> (w: OperatorWaveform)
    ensures
        w == spec_waveform_from_draw(d),
{
    if d == 0 {
        OperatorWaveform::Sine
    } else if d == 1 {
        OperatorWaveform::Square
    } else {
        OperatorWaveform::Saw
    }
}

/// Draw a waveform uniformly from the three kinds, returning the raw draw
/// beside the waveform it maps to.
pub fn draw_waveform(rng: &mut rand::rngs::SmallRng) -> (r: (u64, OperatorWaveform))
    ensures
        r.0 < 3,
        r.1 == spec_waveform_from_draw(r.0),
{
    let d = gen_u64_range(rng, 0, 3);
    (d, waveform_from_draw(d))
}

/// The frequency mode a mutation coin flip selects: Ratio and Fixed with
/// equal probability.
pub fn mode_from_draw(ratio: bool) -> (m: OperatorMode)
    ensures
        m == if ratio { OperatorMode::Ratio } else { OperatorMode::Fixed },
{
    if ratio {
        OperatorMode::Ratio
    } else {
        OperatorMode::Fixed
    }
}

/// A phase advanced by one step and wrapped back into `[0, PHASE_ONE)` by a
/// single subtraction, which suffices because one step is less than a whole
/// cycle.
pub open spec fn spec_wrap_phase(p: int) -> int {
    if p >= PHASE_ONE {
        p - PHASE_ONE
    } else {
        p
    }
}

/// Advance the phase accumulator by one sample's step (the normalized
/// frequency in cycles per sample, as a fraction of `PHASE_ONE`) and wrap it
/// into the valid domain.
pub fn advance_phase(phase: u64, step: u64) -> (p: u64)
    requires
        phase < PHASE_ONE,
        step < PHASE_ONE,
    ensures
        p == spec_wrap_phase(phase + step),
        p < PHASE_ONE,
{
    let next = phase + step;
    if next >= PHASE_ONE {
        next - PHASE_ONE
    } else {
        next
    }
}

/// Single-step wrapping agrees with reduction modulo a full cycle whenever
/// the step stays below one cycle, so the accumulator never drifts out of
/// its domain.
pub proof fn lemma_wrap_is_mod(phase: int, step: int)
    requires
        0 <= phase < PHASE_ONE,
        0 <= step < PHASE_ONE,
    ensures
        spec_wrap_phase(phase + step) == (phase + step) % (PHASE_ONE as int),
{
    let one = PHASE_ONE as int;
    if phase + step >= one {
        assert((phase + step) % one == (phase + step - one) % one) by {
            vstd::arithmetic::div_mod::lemma_mod_sub_multiples_vanish(phase + step, one);
        }
        assert((phase + step - one) % one == phase + step - one) by {
            vstd::arithmetic::div_mod::lemma_small_mod((phase + step - one) as nat, one as nat);
        }
    } else {
        assert((phase + step) % one == phase + step) by {
            vstd::arithmetic::div_mod::lemma_small_mod((phase + step) as nat, one as nat);
        }
    }
}

} // verus!
