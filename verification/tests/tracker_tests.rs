use synthie::keys::{Key, KeyInput, KeyKind};
use synthie::params::{ChannelNo, DrumHit, MidiNote};
use synthie::tracker::input::{handle_key, make_midi};
use synthie::tracker::player::{fire_step, next_step, note_off_all, patch_loads, PlayerEvent, Sequencer};
use synthie::tracker::state::{DrumKind, TrackerEffect, TrackerState};
use synthie::tracker::view::{drum_cell_text, row_cell_text, scroll_offset, step_cell_text, truncate};
use synthie::tracker::{note_name, DrumStep, Pattern, Step, DRUM_TRACK, STEPS};

fn press(code: Key) -> KeyInput {
    KeyInput {
        code,
        kind: KeyKind::Press,
        ctrl: false,
        shift: false,
    }
}

#[test]
fn note_names() {
    assert_eq!(note_name(MidiNote(60)), "C-4");
    assert_eq!(note_name(MidiNote(61)), "C#4");
    assert_eq!(note_name(MidiNote(67)), "G-4");
    assert_eq!(note_name(MidiNote(64)), "E-4");
    assert_eq!(note_name(MidiNote(12)), "C-0");
    assert_eq!(note_name(MidiNote(0)), "C--1");
    assert_eq!(note_name(MidiNote(69)), "A-4");
    assert_eq!(note_name(MidiNote(119)), "B-8");
    assert_eq!(note_name(MidiNote(127)), "G-9");
    assert_eq!(note_name(MidiNote(255)), "D#20");
}

#[test]
fn cursor_wraps_in_both_directions() {
    let mut s = TrackerState::new(8);
    s.cursor_up();
    assert_eq!(s.cursor_row, STEPS - 1);
    s.cursor_down();
    assert_eq!(s.cursor_row, 0);
    s.cursor_left();
    assert_eq!(s.cursor_track, DRUM_TRACK);
    s.cursor_right();
    assert_eq!(s.cursor_track, 0);
}

#[test]
fn enter_note_stores_and_advances() {
    let mut s = TrackerState::new(8);
    let e = s.enter_note(MidiNote(60));
    assert_eq!(e, TrackerEffect::NotifyPlayer);
    assert_eq!(s.song.pattern.synth[0][0].note, Some(MidiNote(60)));
    assert_eq!(s.cursor_row, 1);
    // On the drum column notes are ignored.
    s.cursor_track = DRUM_TRACK;
    assert_eq!(s.enter_note(MidiNote(62)), TrackerEffect::Nothing);
    assert_eq!(s.cursor_row, 1);
}

#[test]
fn drums_toggle_and_clear() {
    let mut s = TrackerState::new(8);
    s.cursor_track = DRUM_TRACK;
    assert_eq!(s.toggle_drum(DrumKind::Kick), TrackerEffect::NotifyPlayer);
    assert!(s.song.pattern.drums[0].kick);
    s.cursor_up();
    s.toggle_drum(DrumKind::Kick);
    assert!(!s.song.pattern.drums[0].kick);
    s.cursor_up();
    s.toggle_drum(DrumKind::HiHatOpen);
    assert!(s.song.pattern.drums[0].hihat_open);
    s.cursor_up();
    assert_eq!(s.clear_step(), TrackerEffect::NotifyPlayer);
    assert!(!s.song.pattern.drums[0].hihat_open);
    // On a synth track the drum keys do nothing.
    s.cursor_track = 0;
    assert_eq!(s.toggle_drum(DrumKind::Kick), TrackerEffect::Nothing);
}

#[test]
fn bpm_is_clamped() {
    let mut s = TrackerState::new(8);
    for _ in 0..300 {
        s.bpm_up();
    }
    assert_eq!(s.song.bpm, 300);
    for _ in 0..400 {
        s.bpm_down();
    }
    assert_eq!(s.song.bpm, 30);
}

#[test]
fn octave_is_clamped() {
    let mut s = TrackerState::new(8);
    for _ in 0..10 {
        s.octave_up();
    }
    assert_eq!(s.octave, 8);
    for _ in 0..10 {
        s.octave_down();
    }
    assert_eq!(s.octave, 0);
}

#[test]
fn patch_selection_wraps() {
    let mut s = TrackerState::new(8);
    assert_eq!(s.prev_patch(), TrackerEffect::ReloadTrackPatch(0));
    assert_eq!(s.song.track_patches[0], 7);
    assert_eq!(s.next_patch(), TrackerEffect::ReloadTrackPatch(0));
    assert_eq!(s.song.track_patches[0], 0);
    s.cursor_track = DRUM_TRACK;
    assert_eq!(s.next_patch(), TrackerEffect::Nothing);
}

#[test]
fn pattern_length_limits_and_cursor() {
    let mut s = TrackerState::new(8);
    assert_eq!(s.pattern_len_up(), TrackerEffect::Nothing);
    s.cursor_up();
    assert_eq!(s.cursor_row, 15);
    assert_eq!(s.pattern_len_down(), TrackerEffect::NotifyPlayer);
    assert_eq!(s.song.pattern.len, 15);
    assert_eq!(s.cursor_row, 14);
    for _ in 0..20 {
        s.pattern_len_down();
    }
    assert_eq!(s.song.pattern.len, 1);
    assert_eq!(s.cursor_row, 0);
}

#[test]
fn keys_enter_notes_and_toggle_drums() {
    let mut s = TrackerState::new(8);
    // 'z' at octave 4 is C of octave 4: MIDI 60.
    assert_eq!(handle_key(press(Key::Char('z')), &mut s), TrackerEffect::NotifyPlayer);
    assert_eq!(s.song.pattern.synth[0][0].note, Some(MidiNote(60)));
    // Upper row one octave up.
    assert_eq!(handle_key(press(Key::Char('q')), &mut s), TrackerEffect::NotifyPlayer);
    assert_eq!(s.song.pattern.synth[0][1].note, Some(MidiNote(72)));
    // Drum column: 'h' toggles the closed hi-hat.
    handle_key(press(Key::Left), &mut s);
    assert_eq!(s.cursor_track, DRUM_TRACK);
    assert_eq!(handle_key(press(Key::Char('h')), &mut s), TrackerEffect::NotifyPlayer);
    assert!(s.song.pattern.drums[2].hihat_closed);
}

#[test]
fn keys_global_controls() {
    let mut s = TrackerState::new(8);
    assert_eq!(handle_key(press(Key::Char(' ')), &mut s), TrackerEffect::TogglePlay);
    assert_eq!(handle_key(press(Key::Esc), &mut s), TrackerEffect::Panic);
    assert_eq!(handle_key(press(Key::F(12)), &mut s), TrackerEffect::Quit);
    let ctrl_q = KeyInput {
        code: Key::Char('q'),
        kind: KeyKind::Press,
        ctrl: true,
        shift: false,
    };
    assert_eq!(handle_key(ctrl_q, &mut s), TrackerEffect::Quit);
    let release = KeyInput {
        code: Key::Char('z'),
        kind: KeyKind::Release,
        ctrl: false,
        shift: false,
    };
    assert_eq!(handle_key(release, &mut s), TrackerEffect::Nothing);
    assert_eq!(handle_key(press(Key::Char('+')), &mut s), TrackerEffect::NotifyPlayer);
    assert_eq!(s.song.bpm, 121);
    let back_tab = KeyInput {
        code: Key::Tab,
        kind: KeyKind::Press,
        ctrl: false,
        shift: true,
    };
    assert_eq!(handle_key(back_tab, &mut s), TrackerEffect::ReloadTrackPatch(0));
    assert_eq!(s.song.track_patches[0], 7);
}

#[test]
fn help_overlay_swallows_one_key() {
    let mut s = TrackerState::new(8);
    handle_key(press(Key::F(1)), &mut s);
    assert!(s.show_help);
    assert_eq!(handle_key(press(Key::Char('z')), &mut s), TrackerEffect::Nothing);
    assert!(!s.show_help);
    assert_eq!(s.song.pattern.synth[0][0].note, None);
}

#[test]
fn make_midi_clamps() {
    assert_eq!(make_midi(4, 0), MidiNote(60));
    assert_eq!(make_midi(8, 23), MidiNote(127));
    assert_eq!(make_midi(-2, 0), MidiNote(0));
}

#[test]
fn fire_step_releases_then_starts_then_drums() {
    let mut p = Pattern::new();
    p.set_step(0, 3, Step { note: Some(MidiNote(60)) });
    p.set_step(2, 3, Step { note: Some(MidiNote(67)) });
    p.set_drums(
        3,
        DrumStep {
            kick: true,
            hihat_closed: false,
            hihat_open: true,
        },
    );
    let mut active = [None, Some(MidiNote(50)), None, None];
    let ev = fire_step(&p, 3, &mut active);
    assert_eq!(
        ev,
        vec![
            PlayerEvent::NoteOff(ChannelNo(1), MidiNote(50)),
            PlayerEvent::NoteOn(ChannelNo(0), MidiNote(60)),
            PlayerEvent::NoteOn(ChannelNo(2), MidiNote(67)),
            PlayerEvent::Drum(DrumHit::Kick),
            PlayerEvent::Drum(DrumHit::HiHatOpen),
        ]
    );
    assert_eq!(active, [Some(MidiNote(60)), None, Some(MidiNote(67)), None]);
    let off = note_off_all(&mut active);
    assert_eq!(off.len(), 2);
    assert_eq!(active, [None; 4]);
}

#[test]
fn sequencer_walks_active_rows() {
    let mut p = Pattern::new();
    p.len = 3;
    p.set_step(1, 1, Step { note: Some(MidiNote(64)) });
    let mut seq = Sequencer::new();
    assert!(seq.start().is_empty());
    assert!(seq.playing);
    let mut fired = Vec::new();
    for _ in 0..5 {
        let (row, _) = seq.advance(&p);
        fired.push(row);
    }
    assert_eq!(fired, vec![0, 1, 2, 0, 1]);
    // Row 1 left its note sounding on channel 1.
    let off = seq.stop();
    assert_eq!(off, vec![PlayerEvent::NoteOff(ChannelNo(1), MidiNote(64))]);
    assert!(!seq.playing);
    assert_eq!(next_step(15, 16), 0);
    assert_eq!(next_step(2, 16), 3);
}

#[test]
fn patch_loads_skip_missing_presets() {
    let loads = patch_loads(&[0, 9, 2, 3], 4);
    assert_eq!(
        loads,
        vec![(ChannelNo(0), 0), (ChannelNo(2), 2), (ChannelNo(3), 3)]
    );
}

#[test]
fn scroll_offset_keeps_cursor_centred() {
    assert_eq!(scroll_offset(5, 16, 20), 0);
    assert_eq!(scroll_offset(1, 16, 8), 0);
    assert_eq!(scroll_offset(8, 16, 8), 4);
    assert_eq!(scroll_offset(15, 16, 8), 8);
    assert_eq!(scroll_offset(1, 2, usize::MAX), 0);
}

#[test]
fn truncate_counts_characters() {
    assert_eq!(truncate("C64 Bass Deluxe", 9), "C64 Bass ");
    assert_eq!(truncate("Bass", 9), "Bass");
    assert_eq!(truncate("♩♩♩♩", 2), "♩♩");
}

#[test]
fn cell_texts() {
    assert_eq!(step_cell_text(Step { note: None }), " ---");
    assert_eq!(step_cell_text(Step { note: Some(MidiNote(61)) }), " C#4");
    let d = DrumStep {
        kick: true,
        hihat_closed: false,
        hihat_open: true,
    };
    assert_eq!(drum_cell_text(d), " K . O");
    assert_eq!(drum_cell_text(DrumStep::default()), " . . .");
    assert_eq!(row_cell_text(3, false), " 03");
    assert_eq!(row_cell_text(12, true), "►12");
    assert_eq!(row_cell_text(0, false), " 00");
    assert_eq!(row_cell_text(100, false), " 100");
    assert_eq!(row_cell_text(1234, true), "►1234");
}

#[test]
fn small_bank_patch_selection() {
    let mut s = TrackerState::new(2);
    for _ in 0..3 {
        s.cursor_right();
    }
    assert_eq!(s.cursor_track, 3);
    assert_eq!(s.song.track_patches[3], 3);
    assert_eq!(s.next_patch(), TrackerEffect::ReloadTrackPatch(3));
    assert_eq!(s.song.track_patches[3], 0);
    assert_eq!(s.prev_patch(), TrackerEffect::ReloadTrackPatch(3));
    assert_eq!(s.song.track_patches[3], 1);
    s.cursor_left();
    assert_eq!(s.prev_patch(), TrackerEffect::ReloadTrackPatch(2));
    assert_eq!(s.song.track_patches[2], 1);
}

#[test]
fn empty_bank_still_edits() {
    let mut s = TrackerState::new(0);
    s.cursor_down();
    assert_eq!(s.cursor_row, 1);
    s.cursor_left();
    assert_eq!(s.cursor_track, DRUM_TRACK);
    assert_eq!(s.toggle_drum(DrumKind::Kick), TrackerEffect::NotifyPlayer);
    assert!(s.song.pattern.drums[1].kick);
    // On the drum column the preset keys do nothing, so the empty bank is no obstacle.
    assert_eq!(s.next_patch(), TrackerEffect::Nothing);
    assert_eq!(handle_key(press(Key::Tab), &mut s), TrackerEffect::Nothing);
}
