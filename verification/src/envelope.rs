//! The ADSR-like envelope state machine.
//!
//! An envelope produces one amplitude per sample.  Its value rises during
//! Attack until it reaches the peak, falls during Decay until it reaches the
//! sustain level, holds during Sustain, and falls during Release until it
//! reaches silence, after which the envelope is Off and produces nothing.
//! The per-sample value arithmetic is single-pole floating-point filtering
//! done by the caller; what is decided here, and verified, is every state
//! transition and which level the value is clamped to when a segment ends.

use vstd::prelude::*;

verus! {

/// The five segments of the envelope.
#[derive(Clone, Copy, Debug, PartialEq, Eq, Structural)]
pub enum EnvelopeState {
    Attack,
    Decay,
    Sustain,
    Release,
    Off,
}

/// The level an envelope value is clamped to when its segment's target is
/// reached: the peak amplitude (end of Attack), the sustain level (end of
/// Decay), or silence (end of Release).
#[derive(Clone, Copy, Debug, PartialEq, Eq, Structural)]
pub enum TargetLevel {
    Peak,
    SustainLevel,
    Silence,
}

/// The transition relation of the state machine: `reached` says whether the
/// segment's target level was reached by the latest value update.
pub open spec fn spec_advance_state(s: EnvelopeState, reached: bool) -> EnvelopeState {
    match s {
        EnvelopeState::Attack => if reached {
            EnvelopeState::Decay
        } else {
            EnvelopeState::Attack
        },
        EnvelopeState::Decay => if reached {
            EnvelopeState::Sustain
        } else {
            EnvelopeState::Decay
        },
        EnvelopeState::Sustain => EnvelopeState::Sustain,
        EnvelopeState::Release => if reached {
            EnvelopeState::Off
        } else {
            EnvelopeState::Release
        },
        EnvelopeState::Off => EnvelopeState::Off,
    }
}

/// Position of a state in the one-way Attack -> Decay -> Sustain and
/// Release -> Off progression.
pub open spec fn spec_stage_index(s: EnvelopeState) -> int {
    match s {
        EnvelopeState::Attack => 0,
        EnvelopeState::Decay => 1,
        EnvelopeState::Sustain => 2,
        EnvelopeState::Release => 3,
        EnvelopeState::Off => 4,
    }
}

impl EnvelopeState {
    /// Take one step of the state machine.  `reached_target` reports whether
    /// the caller's value update reached the segment's target level: the
    /// value rose to the peak in Attack, fell to the sustain level in Decay,
    /// or fell to silence in Release.
    pub fn advance(self, reached_target: bool) -> (s: EnvelopeState)
        ensures
            s == spec_advance_state(self, reached_target),
    {
        match self {
            EnvelopeState::Attack => if reached_target {
                EnvelopeState::Decay
            } else {
                EnvelopeState::Attack
            },
            EnvelopeState::Decay => if reached_target {
                EnvelopeState::Sustain
            } else {
                EnvelopeState::Decay
            },
            EnvelopeState::Sustain => EnvelopeState::Sustain,
            EnvelopeState::Release => if reached_target {
                EnvelopeState::Off
            } else {
                EnvelopeState::Release
            },
            EnvelopeState::Off => EnvelopeState::Off,
        }
    }

    /// Whether an envelope in this state produces an amplitude; only an Off
    /// envelope yields end-of-voice instead.
    pub fn producing(self) -> (b: bool)
        ensures
            b == (self != EnvelopeState::Off),
    {
        match self {
            EnvelopeState::Off => false,
            _ => true,
        }
    }

    /// Re-trigger the voice: a restart re-enters Attack from any state (the
    /// value itself is kept by the caller, so re-triggering is click-free).
    pub fn restart(self) -> (s: EnvelopeState)
        ensures
            s == EnvelopeState::Attack,
    {
        EnvelopeState::Attack
    }

    /// The state a mutation forces the envelope into: Attack or Release with
    /// equal probability; the coin flip is passed in by the caller.
    pub fn mutated(enter_attack: bool) -> (s: EnvelopeState)
        ensures
            s == if enter_attack { EnvelopeState::Attack } else { EnvelopeState::Release },
    {
        if enter_attack {
            EnvelopeState::Attack
        } else {
            EnvelopeState::Release
        }
    }

    /// The level the value is clamped to when this segment's target is
    /// reached; Sustain holds the value and Off produces none, so neither
    /// clamps.
    pub fn target_level(self) -> (t: Option<TargetLevel>)
        ensures
            t == match self {
                EnvelopeState::Attack => Some(TargetLevel::Peak),
                EnvelopeState::Decay => Some(TargetLevel::SustainLevel),
                EnvelopeState::Release => Some(TargetLevel::Silence),
                EnvelopeState::Sustain => None::<TargetLevel>,
                EnvelopeState::Off => None::<TargetLevel>,
            },
    {
        match self {
            EnvelopeState::Attack => Some(TargetLevel::Peak),
            EnvelopeState::Decay => Some(TargetLevel::SustainLevel),
            EnvelopeState::Release => Some(TargetLevel::Silence),
            EnvelopeState::Sustain => None,
            EnvelopeState::Off => None,
        }
    }
}

/// The state after a whole sequence of advance steps, one flag per sample.
pub open spec fn spec_advance_many(s: EnvelopeState, flags: Seq<bool>) -> EnvelopeState
    decreases flags.len(),
{
    if flags.len() == 0 {
        s
    } else {
        spec_advance_many(spec_advance_state(s, flags[0]), flags.subrange(1, flags.len() as int))
    }
}

/// Once an envelope is Off, every later advance leaves it Off: the voice
/// stays ended until the caller restarts it.
pub proof fn lemma_off_is_absorbing(flags: Seq<bool>)
    ensures
        spec_advance_many(EnvelopeState::Off, flags) == EnvelopeState::Off,
    decreases flags.len(),
{
    if flags.len() > 0 {
        lemma_off_is_absorbing(flags.subrange(1, flags.len() as int));
    }
}

/// The state machine only moves forward: no advance step returns to an
/// earlier segment, so each segment's shape holds until its target is
/// reached.
pub proof fn lemma_advance_monotone(s: EnvelopeState, reached: bool)
    ensures
        spec_stage_index(spec_advance_state(s, reached)) >= spec_stage_index(s),
{
}

/// Forward-only progression holds over whole runs: however many samples pass
/// and whichever targets are reached, advancing never returns the envelope to
/// an earlier segment; only a restart or a mutation can.
pub proof fn lemma_run_monotone(s: EnvelopeState, flags: Seq<bool>)
    ensures
        spec_stage_index(spec_advance_many(s, flags)) >= spec_stage_index(s),
    decreases flags.len(),
{
    if flags.len() > 0 {
        lemma_advance_monotone(s, flags[0]);
        lemma_run_monotone(
            spec_advance_state(s, flags[0]),
            flags.subrange(1, flags.len() as int),
        );
    }
}

} // verus!
