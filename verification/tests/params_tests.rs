use synthie::env::EnvStage;
use synthie::lfsr::{lfsr_step, LFSR_SEED, LFSR_TAPS};
use synthie::params::{ChannelNo, FilterMode, LfoTarget, MidiNote, Waveform};

#[test]
fn waveform_names() {
    assert_eq!(Waveform::Pulse.name(), "Pulse");
    assert_eq!(Waveform::Sawtooth.name(), "Saw");
    assert_eq!(Waveform::Triangle.name(), "Tri");
    assert_eq!(Waveform::Noise.name(), "Noise");
    assert_eq!(Waveform::PulseSaw.name(), "Pls+Saw");
}

#[test]
fn waveform_next_wraps() {
    assert_eq!(Waveform::Pulse.next(), Waveform::Sawtooth);
    assert_eq!(Waveform::PulseSaw.next(), Waveform::Pulse);
    assert_eq!(Waveform::Pulse.prev(), Waveform::PulseSaw);
    assert_eq!(Waveform::Triangle.prev(), Waveform::Sawtooth);
}

#[test]
fn waveform_cycle_returns_after_five() {
    let all = [
        Waveform::Pulse,
        Waveform::Sawtooth,
        Waveform::Triangle,
        Waveform::Noise,
        Waveform::PulseSaw,
    ];
    for &w in &all {
        let mut x = w;
        let mut seen = Vec::new();
        for _ in 0..5 {
            seen.push(x);
            x = x.next();
        }
        assert_eq!(x, w);
        for v in all {
            assert!(seen.contains(&v));
        }
        assert_eq!(w.next().prev(), w);
        assert_eq!(w.prev().next(), w);
    }
}

#[test]
fn filter_mode_names_and_cycle() {
    assert_eq!(FilterMode::LowPass.name(), "LP");
    assert_eq!(FilterMode::BandPass.name(), "BP");
    assert_eq!(FilterMode::HighPass.name(), "HP");
    assert_eq!(FilterMode::LowPass.next(), FilterMode::BandPass);
    assert_eq!(FilterMode::HighPass.next(), FilterMode::LowPass);
    assert_eq!(FilterMode::BandPass.next().next().next(), FilterMode::BandPass);
}

#[test]
fn lfo_target_names_and_cycle() {
    assert_eq!(LfoTarget::Pitch.name(), "Pitch");
    assert_eq!(LfoTarget::PulseWidth.name(), "PW");
    assert_eq!(LfoTarget::Cutoff.name(), "Cutoff");
    assert_eq!(LfoTarget::Volume.name(), "Volume");
    assert_eq!(LfoTarget::Volume.next(), LfoTarget::Pitch);
    assert_eq!(LfoTarget::Pitch.next().next().next().next(), LfoTarget::Pitch);
}

#[test]
fn midi_note_clamping() {
    assert_eq!(MidiNote::new_clamped(0), MidiNote(0));
    assert_eq!(MidiNote::new_clamped(127), MidiNote(127));
    assert_eq!(MidiNote::new_clamped(128), MidiNote(127));
    assert_eq!(MidiNote::new_clamped(255).as_u8(), 127);
    assert_eq!(MidiNote(200).as_u8(), 200);
    assert_eq!(MidiNote::default(), MidiNote::middle_c());
    assert_eq!(MidiNote::a4().as_u8(), 69);
    assert_eq!(MidiNote::from(42u8), MidiNote(42));
}

#[test]
fn channel_index() {
    assert_eq!(ChannelNo(3).as_usize(), 3usize);
    assert_eq!(ChannelNo::default(), ChannelNo(0));
    assert_eq!(ChannelNo::from(7u8).as_usize(), 7usize);
}

#[test]
fn env_stage_names_and_transitions() {
    assert_eq!(EnvStage::Idle.name(), "Idle");
    assert_eq!(EnvStage::Release.name(), "Release");
    assert!(!EnvStage::Idle.is_active());
    assert!(EnvStage::Sustain.is_active());
    assert_eq!(EnvStage::Idle.after_note_off(), EnvStage::Idle);
    assert_eq!(EnvStage::Decay.after_note_off(), EnvStage::Release);
    assert!(EnvStage::Attack.note_on_keeps_level(true));
    assert!(!EnvStage::Attack.note_on_keeps_level(false));
    assert!(!EnvStage::Idle.note_on_keeps_level(true));
}

#[test]
fn lfsr_step_values() {
    // Odd state: shift and fold in the taps.
    assert_eq!(lfsr_step(1), LFSR_TAPS);
    // Even state: plain shift.
    assert_eq!(lfsr_step(0x10), 0x08);
    let s = lfsr_step(LFSR_SEED);
    assert_eq!(s, (LFSR_SEED >> 1) ^ LFSR_TAPS);
}

#[test]
fn lfsr_never_locks_up() {
    let mut s = LFSR_SEED;
    for _ in 0..10_000 {
        s = lfsr_step(s);
        assert_ne!(s, 0);
    }
}

#[test]
fn note_on_always_enters_attack() {
    for stage in [EnvStage::Idle, EnvStage::Decay, EnvStage::Release] {
        assert_eq!(stage.after_note_on(), EnvStage::Attack);
    }
}
