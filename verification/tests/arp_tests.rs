use synthie::arp::{ArpEvents, ArpMode, ArpNotes, Arpeggiator};
use synthie::params::MidiNote;

const SR: f32 = 44100.0;

/// Step clock of the arpeggiator: rate in steps per second and gate as a
/// fraction of the step, driving the verified per-sample decision.
struct Arp {
    core: Arpeggiator,
    phase: f32,
    rate: f32,
    gate: f32,
}

impl Arp {
    fn new(rate: f32, gate: f32) -> Self {
        Arp {
            core: Arpeggiator::new(),
            phase: 0.0,
            rate,
            gate,
        }
    }

    fn tick(&mut self, sample_rate: f32, notes: &ArpNotes) -> ArpEvents {
        if notes.count == 0 {
            return self.core.tick(notes, false, false);
        }
        let gate_due = self.phase >= self.gate;
        self.phase += self.rate / sample_rate;
        let wrapped = self.phase >= 1.0;
        if wrapped {
            self.phase -= 1.0;
        }
        self.core.tick(notes, gate_due, wrapped)
    }
}

/// Up mode note list; the clock runs one step per sample.
fn up_params(notes: &[u8]) -> ArpNotes {
    let mut p = ArpNotes::new();
    let list: Vec<MidiNote> = notes.iter().map(|&n| MidiNote(n)).collect();
    let mut arp = Arpeggiator::new();
    arp.set_notes(&mut p, &list);
    p
}

#[test]
fn count_zero_returns_no_events() {
    let mut arp = Arp::new(SR, 0.5);
    let params = ArpNotes::new();
    let e = arp.tick(SR, &params);
    assert_eq!(e.on, None);
    assert_eq!(e.off, None);
}

#[test]
fn first_tick_fires_note_on_immediately() {
    let mut arp = Arp::new(SR, 0.5);
    let params = up_params(&[60, 64, 67]);
    let e = arp.tick(SR, &params);
    assert_eq!(e.on, Some(MidiNote(60)));
    assert_eq!(e.off, None);
}

#[test]
fn up_mode_cycles_three_notes_in_order() {
    let mut arp = Arp::new(SR, 0.5);
    let params = up_params(&[60, 64, 67]);

    let e = arp.tick(SR, &params);
    assert_eq!(e.on, Some(MidiNote(60)), "tick 1 NoteOn");
    assert_eq!(e.off, None, "tick 1 no NoteOff");

    let e = arp.tick(SR, &params);
    assert_eq!(e.off, Some(MidiNote(60)), "tick 2 NoteOff 60");
    assert_eq!(e.on, Some(MidiNote(64)), "tick 2 NoteOn 64");

    let e = arp.tick(SR, &params);
    assert_eq!(e.off, Some(MidiNote(64)), "tick 3 NoteOff 64");
    assert_eq!(e.on, Some(MidiNote(67)), "tick 3 NoteOn 67");

    let e = arp.tick(SR, &params);
    assert_eq!(e.off, Some(MidiNote(67)), "tick 4 NoteOff 67");
    assert_eq!(e.on, Some(MidiNote(60)), "tick 4 NoteOn 60 (wrap)");
}

#[test]
fn gate_fires_note_off_mid_step() {
    let mut arp = Arp::new(SR / 2.0, 0.5);
    let params = up_params(&[60, 64]);

    let e = arp.tick(SR, &params);
    assert_eq!(e.on, Some(MidiNote(60)), "s1 NoteOn");
    assert_eq!(e.off, None, "s1 no NoteOff");

    let e = arp.tick(SR, &params);
    assert_eq!(e.off, Some(MidiNote(60)), "s2 NoteOff");
    assert_eq!(e.on, Some(MidiNote(64)), "s2 NoteOn");
}

#[test]
fn gate_1_fires_note_off_at_step_boundary() {
    let mut arp = Arp::new(SR / 2.0, 1.0);
    let params = up_params(&[60, 64]);

    let e = arp.tick(SR, &params);
    assert_eq!(e.on, Some(MidiNote(60)));
    assert_eq!(e.off, None);

    let e = arp.tick(SR, &params);
    assert_eq!(e.off, Some(MidiNote(60)), "gate=1.0 NoteOff at boundary");
    assert_eq!(e.on, Some(MidiNote(64)));
}

#[test]
fn down_mode_cycles_descending() {
    let mut arp = Arp::new(SR, 0.5);
    let mut params = up_params(&[60, 64, 67]);
    params.mode = ArpMode::Down;

    let e = arp.tick(SR, &params);
    assert_eq!(e.on, Some(MidiNote(60)));

    let e = arp.tick(SR, &params);
    assert_eq!(e.off, Some(MidiNote(60)));
    assert_eq!(e.on, Some(MidiNote(67)));

    let e = arp.tick(SR, &params);
    assert_eq!(e.off, Some(MidiNote(67)));
    assert_eq!(e.on, Some(MidiNote(64)));

    let e = arp.tick(SR, &params);
    assert_eq!(e.off, Some(MidiNote(64)));
    assert_eq!(e.on, Some(MidiNote(60)));
}

#[test]
fn updown_mode_bounces_at_ends() {
    let mut arp = Arp::new(SR, 0.5);
    let mut params = up_params(&[60, 64, 67]);
    params.mode = ArpMode::UpDown;

    let expected_notes = [60u8, 64, 67, 64, 60, 64, 67, 64, 60];
    let mut prev_on: Option<MidiNote> = None;
    for (i, &n) in expected_notes.iter().enumerate() {
        let e = arp.tick(SR, &params);
        assert_eq!(
            e.on,
            Some(MidiNote(n)),
            "tick {} expected NoteOn({})",
            i + 1,
            n
        );
        if i > 0 {
            assert_eq!(
                e.off,
                prev_on,
                "tick {} expected NoteOff({:?})",
                i + 1,
                prev_on
            );
        }
        prev_on = e.on;
    }
}

#[test]
fn random_mode_stays_in_bounds() {
    let mut arp = Arp::new(SR, 0.5);
    let mut params = up_params(&[60, 64, 67, 69]);
    params.mode = ArpMode::Random;

    for _ in 0..1000 {
        let e = arp.tick(SR, &params);
        if let Some(note) = e.on {
            assert!(
                params.notes[..params.count as usize].contains(&note),
                "random arp emitted note {note:?} not in list"
            );
        }
    }
}

#[test]
fn random_mode_single_note_always_returns_same_note() {
    let mut arp = Arp::new(SR, 0.5);
    let mut params = up_params(&[60]);
    params.mode = ArpMode::Random;

    for _ in 0..20 {
        let e = arp.tick(SR, &params);
        if let Some(note) = e.on {
            assert_eq!(note, MidiNote(60));
        }
    }
}

#[test]
fn add_note_skips_duplicates_and_full_list() {
    let mut arp = Arpeggiator::new();
    let mut p = ArpNotes::new();
    arp.add_note(&mut p, MidiNote(60));
    arp.add_note(&mut p, MidiNote(64));
    arp.add_note(&mut p, MidiNote(60));
    assert_eq!(p.count, 2);
    assert_eq!(&p.notes[..2], &[MidiNote(60), MidiNote(64)]);
    arp.add_note(&mut p, MidiNote(67));
    arp.add_note(&mut p, MidiNote(69));
    arp.add_note(&mut p, MidiNote(72));
    assert_eq!(p.count, 4);
    assert_eq!(p.notes, [MidiNote(60), MidiNote(64), MidiNote(67), MidiNote(69)]);
}

#[test]
fn remove_note_shifts_down_and_clamps_step() {
    let mut arp = Arpeggiator::new();
    let mut p = up_params(&[60, 64, 67]);
    arp.step = 2;
    arp.remove_note(&mut p, MidiNote(64));
    assert_eq!(p.count, 2);
    assert_eq!(&p.notes[..2], &[MidiNote(60), MidiNote(67)]);
    assert_eq!(arp.step, 1);
    // Removing a note that is not in the list changes nothing.
    arp.remove_note(&mut p, MidiNote(50));
    assert_eq!(p.count, 2);
}

#[test]
fn set_notes_truncates_to_four_and_resets() {
    let mut arp = Arpeggiator::new();
    arp.step = 3;
    arp.direction = 1;
    arp.sounding = Some(MidiNote(1));
    let mut p = ArpNotes::new();
    let notes: Vec<MidiNote> = [50u8, 51, 52, 53, 54].iter().map(|&n| MidiNote(n)).collect();
    arp.set_notes(&mut p, &notes);
    assert_eq!(p.count, 4);
    assert_eq!(p.notes, [MidiNote(50), MidiNote(51), MidiNote(52), MidiNote(53)]);
    assert_eq!(arp.step, 0);
    assert_eq!(arp.direction, 0);
    assert_eq!(arp.sounding, None);
}

#[test]
fn panic_clears_list() {
    let mut arp = Arpeggiator::new();
    let mut p = up_params(&[60, 64]);
    arp.panic(&mut p);
    assert_eq!(p.count, 0);
    assert_eq!(arp.sounding, None);
}

#[test]
fn updown_two_notes_alternates() {
    let mut arp = Arpeggiator::new();
    let mut p = up_params(&[60, 64]);
    p.mode = ArpMode::UpDown;
    let mut seen = Vec::new();
    for _ in 0..6 {
        seen.push(arp.step);
        arp.advance_step(&p);
    }
    assert_eq!(seen, vec![0, 1, 0, 1, 0, 1]);
}

#[test]
fn random_step_uses_lfsr() {
    let mut arp = Arpeggiator::new();
    let mut p = up_params(&[60, 64, 67]);
    p.mode = ArpMode::Random;
    arp.advance_step(&p);
    let expected = synthie::lfsr::lfsr_step(synthie::lfsr::LFSR_SEED);
    assert_eq!(arp.lfsr, expected);
    assert_eq!(arp.step as u32, expected % 3);
}

#[test]
fn emptied_and_refilled_list_plays_only_listed_notes() {
    let mut arp = Arp::new(SR, 1.0);
    let mut p = up_params(&[60, 64, 67]);
    p.mode = ArpMode::Random;
    for _ in 0..50 {
        arp.tick(SR, &p);
    }
    for n in [60, 64, 67] {
        arp.core.remove_note(&mut p, MidiNote(n));
    }
    assert_eq!(p.count, 0);
    assert_eq!(arp.core.step, 0);
    arp.core.add_note(&mut p, MidiNote(72));
    arp.core.sounding = None;
    for _ in 0..50 {
        if let Some(n) = arp.tick(SR, &p).on {
            assert_eq!(n, MidiNote(72));
        }
    }
}
