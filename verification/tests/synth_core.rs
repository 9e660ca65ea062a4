use voltshark::envelope::EnvelopeState;
use voltshark::filter::FilterType;
use voltshark::synth::dsp::{noise_lcg, ADSRState, DelayLine};
use voltshark::synth::engine::{
    control_action, find_free_voice, voices_to_release, ControlAction, PatchBank, QUIET_SEARCH_START,
};

#[test]
fn adsr_stage_order() {
    assert_eq!(ADSRState::Attack.after_segment(), ADSRState::Decay);
    assert_eq!(ADSRState::Decay.after_segment(), ADSRState::Sustain);
    assert_eq!(ADSRState::Sustain.after_segment(), ADSRState::Sustain);
    assert_eq!(ADSRState::Release.after_segment(), ADSRState::Idle);
    assert_eq!(ADSRState::Idle.after_segment(), ADSRState::Idle);
}

#[test]
fn adsr_release_only_from_sounding_stage() {
    assert_eq!(ADSRState::Idle.on_release(), ADSRState::Idle);
    assert_eq!(ADSRState::Attack.on_release(), ADSRState::Release);
    assert_eq!(ADSRState::Sustain.on_release(), ADSRState::Release);
    assert!(!ADSRState::Idle.is_active());
    assert!(ADSRState::Release.is_active());
}

#[test]
fn envelope_stage_order() {
    assert_eq!(EnvelopeState::Attack.after_segment(), EnvelopeState::Decay);
    assert_eq!(EnvelopeState::Decay.after_segment(), EnvelopeState::Sustain);
    assert_eq!(EnvelopeState::Release.after_segment(), EnvelopeState::Idle);
    assert!(EnvelopeState::Idle.is_idle());
    assert!(!EnvelopeState::Sustain.is_idle());
    assert_ne!(FilterType::LowPass, FilterType::BandPass);
}

#[test]
fn delay_line_echo_at_tap() {
    let mut d = DelayLine::new(0i32);
    d.set_delay_samples(48);
    let mut out = Vec::new();
    for i in 0..128 {
        out.push(d.read());
        d.write(if i == 0 { 1 } else { 0 });
    }
    for (i, &o) in out.iter().enumerate() {
        assert_eq!(o, if i == 48 { 1 } else { 0 }, "sample {}", i);
    }
}

#[test]
fn delay_line_clamps_and_zero_delay_reads_a_ring_ago() {
    let mut d = DelayLine::new(0u16);
    d.set_delay_samples(100_000);
    // Clamped to 8191 samples.
    for i in 0..8191u16 {
        assert_eq!(d.read(), 0);
        d.write(i + 1);
    }
    assert_eq!(d.read(), 1);
    let mut z = DelayLine::new(5u8);
    z.set_delay_samples(0);
    z.write(9);
    assert_eq!(z.read(), 5);
}

#[test]
fn default_delay_is_2205_samples() {
    let mut d = DelayLine::new(0i8);
    d.write(7);
    for _ in 0..2204 {
        d.write(0);
    }
    assert_eq!(d.read(), 7);
}

#[test]
fn noise_generator_step() {
    assert_eq!(noise_lcg(0), 12345);
    assert_eq!(noise_lcg(1), 1103527590);
    assert_eq!(noise_lcg(u32::MAX), 0u32.wrapping_sub(1103515245).wrapping_add(12345));
}

#[test]
fn free_voice_is_first_idle_one() {
    let mut busy = [true; 16];
    busy[5] = false;
    busy[9] = false;
    let levels = [0u32; 16];
    assert_eq!(find_free_voice(&busy, &levels), 5);
    assert_eq!(find_free_voice(&[false; 16], &levels), 0);
}

#[test]
fn all_busy_steals_quietest_first() {
    let busy = [true; 16];
    let mut levels = [0x3F80_0000u32; 16]; // 1.0
    levels[3] = 0x3F00_0000; // 0.5
    levels[7] = 0x3F00_0000;
    assert_eq!(find_free_voice(&busy, &levels), 3);
    // All levels equal: the first voice is stolen.
    assert_eq!(find_free_voice(&busy, &[0u32; 16]), 0);
    // No level below the search start: voice 0.
    assert_eq!(find_free_voice(&busy, &[QUIET_SEARCH_START; 16]), 0);
}

#[test]
fn note_off_selects_matching_active_voices() {
    let active = [true, false, true, true];
    let notes = [60, 60, 61, 60];
    assert_eq!(voices_to_release(&active, &notes, 60), vec![0, 3]);
    assert_eq!(voices_to_release(&active, &notes, 70), Vec::<usize>::new());
}

#[test]
fn controller_routing() {
    assert_eq!(control_action(1), ControlAction::Modulation);
    assert_eq!(control_action(7), ControlAction::Volume);
    assert_eq!(control_action(10), ControlAction::Pan);
    assert_eq!(control_action(71), ControlAction::Resonance);
    assert_eq!(control_action(74), ControlAction::Cutoff);
    assert_eq!(control_action(121), ControlAction::ResetAllControllers);
    assert_eq!(control_action(123), ControlAction::AllNotesOff);
    assert_eq!(control_action(64), ControlAction::Ignore);
}

#[test]
fn patch_bank_switching() {
    let mut b = PatchBank::new();
    assert_eq!(b.name(), "Bass");
    assert_eq!(b.select(3), 3);
    assert_eq!(b.name(), "Drum");
    assert_eq!(b.next(), 4);
    assert_eq!(b.name(), "Pluck");
    assert_eq!(b.select(99), 4); // wraps
    assert_eq!(b.name(), "Pluck");
    assert_eq!(b.next(), 0);
    assert_eq!(b.name(), "Bass");
    assert_eq!(b.select(1), 1);
    assert_eq!(b.name(), "Lead");
    assert_eq!(b.select(2), 2);
    assert_eq!(b.current(), 2);
    assert_eq!(b.name(), "Pad");
}

#[test]
fn delay_line_clamped_impulse_comes_back_only_at_the_cap() {
    let mut d = DelayLine::new(0i32);
    d.set_delay_samples(20_000);
    for i in 0..9000usize {
        let out = d.read();
        assert_eq!(out, if i == 8191 { 1 } else { 0 }, "sample {}", i);
        d.write(if i == 0 { 1 } else { 0 });
    }
}
