//! The mutation scheduler and operator routing of the synthesizer.
//!
//! The synthesizer owns a fixed bank of 64 operators partitioned into FM
//! chains of a grouping factor chosen once at construction, and a countdown
//! in samples to the next mutation.  When the countdown reaches zero exactly
//! one of three mutation kinds runs, picked from one uniform draw, and the
//! countdown is redrawn from the tempo.  The floating-point mixing is done by
//! the caller; the scheduling, the routing shape, and every discrete draw are
//! decided and verified here.

use vstd::prelude::*;
use crate::rng::gen_u64_range;

verus! {

/// The number of operators in the bank, fixed for the life of the synth.
pub const OPERATOR_COUNT: usize = 64;

/// The kind of mutation performed when the countdown expires: exactly one of
/// a single operator, the shared base frequency, or the filter.
#[derive(Clone, Copy, Debug, PartialEq, Eq, Structural)]
pub enum MutationKind {
    Operator,
    Frequency,
    Filter,
}

/// The mutation kind selected by one uniform draw `r` from `[0, 1)`:
/// `above_operator_band` is `r > 0.2` and `below_frequency_band` is
/// `r < 0.05`, so the three kinds cover the whole range with weights
/// 0.8, 0.05 and 0.15 and are mutually exclusive.
pub open spec fn spec_mutation_kind(
    above_operator_band: bool,
    below_frequency_band: bool,
) -> MutationKind {
    if above_operator_band {
        MutationKind::Operator
    } else if below_frequency_band {
        MutationKind::Frequency
    } else {
        MutationKind::Filter
    }
}

/// Select the mutation kind from the two band tests of one uniform draw; the
/// operator band is tested first, as the selection match does.
pub fn select_mutation(above_operator_band: bool, below_frequency_band: bool) -> (k: MutationKind)
    ensures
        k == spec_mutation_kind(above_operator_band, below_frequency_band),
{
    if above_operator_band {
        MutationKind::Operator
    } else if below_frequency_band {
        MutationKind::Frequency
    } else {
        MutationKind::Filter
    }
}

/// The length of one beat in samples, the unit the mutation countdown is
/// drawn from.
pub open spec fn spec_beat_samples(sample_rate: u64, tempo: u64) -> int
    recommends
        tempo > 0,
{
    sample_rate * 60 / (tempo as int)
}

/// Draw the countdown to the next mutation: uniform between half a beat and
/// two beats, so it is always positive and tempo-locked with jitter.
pub fn next_update(rng: &mut rand::rngs::SmallRng, sample_rate: u64, tempo: u64) -> (n: u64)
    requires
        1 <= tempo,
        sample_rate <= 0xFFFF_FFFF,
        spec_beat_samples(sample_rate, tempo) >= 2,
    ensures
        spec_beat_samples(sample_rate, tempo) / 2 <= n < spec_beat_samples(sample_rate, tempo) * 2,
        n >= 1,
{
    let beat = (sample_rate * 60) / tempo;
    gen_u64_range(rng, beat / 2, beat * 2)
}

/// Choose the grouping factor: one of 2, 4 or 8 operators per FM chain, each
/// with equal probability, fixed once at construction.
pub fn choose_groups(rng: &mut rand::rngs::SmallRng) -> (g: usize)
    ensures
        g == 2 || g == 4 || g == 8,
{
    let d = gen_u64_range(rng, 0, 3);
    if d == 0 {
        2
    } else if d == 1 {
        4
    } else {
        8
    }
}

/// The number of FM chains the bank splits into: the grouping factor always
/// divides the bank exactly, so the chains cover all 64 operators.
pub fn chain_count(groups: usize) -> (n: usize)
    requires
        groups == 2 || groups == 4 || groups == 8,
    ensures
        n == OPERATOR_COUNT as int / groups as int,
        n * groups == OPERATOR_COUNT,
{
    OPERATOR_COUNT / groups
}

/// The countdown to the next mutation, in samples.  It is always positive
/// between samples: when a tick brings it to zero the caller performs exactly
/// one mutation and resets it from a fresh draw before the next sample.
#[derive(Clone, Copy, Debug)]
pub struct Countdown {
    pub remaining: u64,
}

impl Countdown {
    /// A countdown is well-formed between samples when at least one sample
    /// remains before the next mutation.
    pub open spec fn wf(self) -> bool {
        self.remaining >= 1
    }

    /// Start a countdown at `initial` samples.
    pub fn new(initial: u64) -> (c: Countdown)
        requires
            initial >= 1,
        ensures
            c.wf(),
            c.remaining == initial,
    {
        Countdown { remaining: initial }
    }

    /// Advance by one sample and report whether the mutation is due; when it
    /// is, the caller must mutate and reset before ticking again.
    pub fn tick(&mut self) -> (due: bool)
        requires
            old(self).wf(),
        ensures
            final(self).remaining == old(self).remaining - 1,
            due == (final(self).remaining == 0),
            !due ==> final(self).wf(),
    {
        self.remaining = self.remaining - 1;
        self.remaining == 0
    }

    /// Rearm the countdown with a freshly drawn interval.
    pub fn reset(&mut self, interval: u64)
        requires
            interval >= 1,
        ensures
            final(self).wf(),
            final(self).remaining == interval,
    {
        self.remaining = interval;
    }
}

/// Pick the operator a mutation falls on, uniformly over the bank.
pub fn choose_operator(rng: &mut rand::rngs::SmallRng) -> (i: usize)
    ensures
        i < OPERATOR_COUNT,
{
    let d = gen_u64_range(rng, 0, 64);
    d as usize
}

} // verus!
