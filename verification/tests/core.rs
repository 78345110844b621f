use fm_synth::envelope::{EnvelopeState, TargetLevel};
use fm_synth::operator::{
    advance_phase, draw_waveform, mode_from_draw, waveform_from_draw, OperatorMode,
    OperatorWaveform, PHASE_ONE,
};
use fm_synth::synth::{
    chain_count, choose_groups, choose_operator, next_update, select_mutation, Countdown,
    MutationKind, OPERATOR_COUNT,
};
use rand::rngs::SmallRng;
use rand::SeedableRng;

#[test]
fn envelope_advances_through_segments() {
    assert_eq!(EnvelopeState::Attack.advance(false), EnvelopeState::Attack);
    assert_eq!(EnvelopeState::Attack.advance(true), EnvelopeState::Decay);
    assert_eq!(EnvelopeState::Decay.advance(false), EnvelopeState::Decay);
    assert_eq!(EnvelopeState::Decay.advance(true), EnvelopeState::Sustain);
    assert_eq!(EnvelopeState::Sustain.advance(false), EnvelopeState::Sustain);
    assert_eq!(EnvelopeState::Sustain.advance(true), EnvelopeState::Sustain);
    assert_eq!(EnvelopeState::Release.advance(false), EnvelopeState::Release);
    assert_eq!(EnvelopeState::Release.advance(true), EnvelopeState::Off);
}

#[test]
fn envelope_off_is_absorbing_until_restart() {
    let mut state = EnvelopeState::Release.advance(true);
    assert_eq!(state, EnvelopeState::Off);
    for i in 0..1000u32 {
        state = state.advance(i % 2 == 0);
        assert_eq!(state, EnvelopeState::Off);
        assert!(!state.producing());
    }
    state = state.restart();
    assert_eq!(state, EnvelopeState::Attack);
    assert!(state.producing());
}

#[test]
fn envelope_mutation_enters_attack_or_release() {
    assert_eq!(EnvelopeState::mutated(true), EnvelopeState::Attack);
    assert_eq!(EnvelopeState::mutated(false), EnvelopeState::Release);
}

#[test]
fn envelope_clamp_levels_per_segment() {
    assert_eq!(EnvelopeState::Attack.target_level(), Some(TargetLevel::Peak));
    assert_eq!(
        EnvelopeState::Decay.target_level(),
        Some(TargetLevel::SustainLevel)
    );
    assert_eq!(
        EnvelopeState::Release.target_level(),
        Some(TargetLevel::Silence)
    );
    assert_eq!(EnvelopeState::Sustain.target_level(), None);
    assert_eq!(EnvelopeState::Off.target_level(), None);
}

#[test]
fn waveform_draw_mapping() {
    assert_eq!(waveform_from_draw(0), OperatorWaveform::Sine);
    assert_eq!(waveform_from_draw(1), OperatorWaveform::Square);
    assert_eq!(waveform_from_draw(2), OperatorWaveform::Saw);
    assert_eq!(waveform_from_draw(7), OperatorWaveform::Saw);
}

#[test]
fn mode_draw_mapping() {
    assert_eq!(mode_from_draw(true), OperatorMode::Ratio);
    assert_eq!(mode_from_draw(false), OperatorMode::Fixed);
}

#[test]
fn drawn_waveform_matches_its_draw() {
    let mut rng = SmallRng::seed_from_u64(7);
    for _ in 0..100 {
        let (d, w) = draw_waveform(&mut rng);
        assert!(d < 3);
        assert_eq!(w, waveform_from_draw(d));
    }
}

#[test]
fn phase_advances_and_wraps_exactly() {
    assert_eq!(advance_phase(0, 5), 5);
    assert_eq!(advance_phase(PHASE_ONE - 1, 1), 0);
    assert_eq!(advance_phase(PHASE_ONE - 1, PHASE_ONE - 1), PHASE_ONE - 2);
    assert_eq!(advance_phase(12, 0), 12);
}

#[test]
fn phase_stays_in_domain_over_many_samples() {
    let step: u64 = 0x1234_5678;
    let mut phase: u64 = 0;
    for _ in 0..100_000 {
        phase = advance_phase(phase, step);
        assert!(phase < PHASE_ONE);
    }
}

#[test]
fn mutation_kind_bands() {
    assert_eq!(select_mutation(true, false), MutationKind::Operator);
    assert_eq!(select_mutation(true, true), MutationKind::Operator);
    assert_eq!(select_mutation(false, true), MutationKind::Frequency);
    assert_eq!(select_mutation(false, false), MutationKind::Filter);
}

#[test]
fn update_draw_is_within_half_to_double_beat() {
    let mut rng = SmallRng::seed_from_u64(1);
    // 44100 Hz at 60 beats per minute: one beat is 44100 samples.
    for _ in 0..200 {
        let n = next_update(&mut rng, 44100, 60);
        assert!(n >= 22050);
        assert!(n < 88200);
    }
}

#[test]
fn update_draw_is_not_pinned_to_the_lower_bound() {
    let mut rng = SmallRng::seed_from_u64(3);
    let mut seen_other = false;
    for _ in 0..50 {
        if next_update(&mut rng, 44100, 60) != 22050 {
            seen_other = true;
        }
    }
    assert!(seen_other);
}

#[test]
fn same_seed_gives_identical_draw_sequence() {
    let mut a = SmallRng::seed_from_u64(42);
    let mut b = SmallRng::seed_from_u64(42);
    assert_eq!(choose_groups(&mut a), choose_groups(&mut b));
    for _ in 0..500 {
        assert_eq!(next_update(&mut a, 48000, 120), next_update(&mut b, 48000, 120));
        assert_eq!(choose_operator(&mut a), choose_operator(&mut b));
        assert_eq!(draw_waveform(&mut a), draw_waveform(&mut b));
    }
}

#[test]
fn different_seeds_diverge() {
    let mut a = SmallRng::seed_from_u64(1);
    let mut b = SmallRng::seed_from_u64(2);
    let mut differed = false;
    for _ in 0..100 {
        if next_update(&mut a, 44100, 60) != next_update(&mut b, 44100, 60) {
            differed = true;
        }
    }
    assert!(differed);
}

#[test]
fn grouping_factor_is_two_four_or_eight() {
    for seed in 0..64u64 {
        let mut rng = SmallRng::seed_from_u64(seed);
        let g = choose_groups(&mut rng);
        assert!(g == 2 || g == 4 || g == 8);
        let chains = chain_count(g);
        assert_eq!(chains * g, OPERATOR_COUNT);
    }
}

#[test]
fn chain_counts_per_grouping() {
    assert_eq!(chain_count(2), 32);
    assert_eq!(chain_count(4), 16);
    assert_eq!(chain_count(8), 8);
}

#[test]
fn chosen_operator_is_in_the_bank() {
    let mut rng = SmallRng::seed_from_u64(9);
    for _ in 0..200 {
        assert!(choose_operator(&mut rng) < OPERATOR_COUNT);
    }
}

#[test]
fn countdown_fires_once_and_rearms() {
    let mut c = Countdown::new(3);
    assert!(!c.tick());
    assert!(!c.tick());
    assert!(c.tick());
    c.reset(2);
    assert!(!c.tick());
    assert!(c.tick());
    c.reset(1);
    assert!(c.tick());
}
