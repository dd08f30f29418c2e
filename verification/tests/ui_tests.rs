use synthie::keys::{key_to_semitone, make_midi, Key, KeyInput, KeyKind};
use synthie::scope::RollingBuf;
use synthie::synth_ui::{
    active_note_text, find_preset, handle_key, user_preset_name, AppState, KeyAction, Section,
};

fn key(code: Key, kind: KeyKind) -> KeyInput {
    KeyInput {
        code,
        kind,
        ctrl: false,
        shift: false,
    }
}

#[test]
fn section_cycle_and_counts() {
    assert_eq!(Section::Osc.name(), "OSC");
    assert_eq!(Section::Presets.name(), "PRESETS");
    assert_eq!(Section::Presets.next(), Section::Osc);
    assert_eq!(Section::Osc.prev(), Section::Presets);
    assert_eq!(Section::Env.param_count(), 6);
    assert_eq!(Section::Presets.param_count(), 0);
    let mut s = Section::Lfo;
    for _ in 0..6 {
        s = s.next();
    }
    assert_eq!(s, Section::Lfo);
}

#[test]
fn piano_layout() {
    assert_eq!(key_to_semitone(Key::Char('z')), Some(0));
    assert_eq!(key_to_semitone(Key::Char('m')), Some(11));
    assert_eq!(key_to_semitone(Key::Char('q')), Some(12));
    assert_eq!(key_to_semitone(Key::Char('u')), Some(23));
    assert_eq!(key_to_semitone(Key::Char('a')), None);
    assert_eq!(key_to_semitone(Key::Up), None);
    assert_eq!(make_midi(4, 0), 60);
    assert_eq!(make_midi(4, 9), 69);
    assert_eq!(make_midi(0, 0), 12);
    assert_eq!(make_midi(8, 23), 127);
    assert_eq!(make_midi(-1, 0), 0);
}

#[test]
fn param_navigation_wraps() {
    let mut s = AppState::new();
    s.prev_param();
    assert_eq!(s.selected_param, 3);
    s.next_param();
    assert_eq!(s.selected_param, 0);
    s.next_section();
    assert_eq!(s.selected_section, Section::Env);
    s.prev_param();
    assert_eq!(s.selected_param, 5);
    s.prev_section();
    assert_eq!(s.selected_section, Section::Osc);
    assert_eq!(s.selected_param, 0);
}

#[test]
fn notes_track_active_note() {
    let mut s = AppState::new();
    assert_eq!(handle_key(key(Key::Char('z'), KeyKind::Press), &mut s, 8), KeyAction::NoteOn(60));
    assert_eq!(s.active_note, Some(60));
    // Repeats do not retrigger.
    assert_eq!(handle_key(key(Key::Char('z'), KeyKind::Repeat), &mut s, 8), KeyAction::Nothing);
    // Releasing another note keeps the active one.
    assert_eq!(handle_key(key(Key::Char('x'), KeyKind::Release), &mut s, 8), KeyAction::NoteOff(62));
    assert_eq!(s.active_note, Some(60));
    assert_eq!(handle_key(key(Key::Char('z'), KeyKind::Release), &mut s, 8), KeyAction::NoteOff(60));
    assert_eq!(s.active_note, None);
    s.note_on(64);
    assert_eq!(handle_key(key(Key::Esc, KeyKind::Press), &mut s, 8), KeyAction::Panic);
    assert_eq!(s.active_note, None);
}

#[test]
fn octave_keys_and_volume() {
    let mut s = AppState::new();
    for _ in 0..6 {
        handle_key(key(Key::Char(']'), KeyKind::Press), &mut s, 8);
    }
    assert_eq!(s.octave, 8);
    assert_eq!(handle_key(key(Key::Char('q'), KeyKind::Press), &mut s, 8), KeyAction::NoteOn(120));
    for _ in 0..12 {
        handle_key(key(Key::Char(','), KeyKind::Press), &mut s, 8);
    }
    assert_eq!(s.octave, 0);
    assert_eq!(handle_key(key(Key::Char('='), KeyKind::Press), &mut s, 8), KeyAction::VolumeUp);
    assert_eq!(handle_key(key(Key::Char('_'), KeyKind::Press), &mut s, 8), KeyAction::VolumeDown);
}

#[test]
fn preset_section_keys() {
    let mut s = AppState::new();
    // Outside the preset list, Up/Down adjust the parameter and digits play or do nothing.
    assert_eq!(handle_key(key(Key::Up, KeyKind::Press), &mut s, 8), KeyAction::AdjustParam(true));
    assert_eq!(handle_key(key(Key::Char('3'), KeyKind::Press), &mut s, 8), KeyAction::NoteOn(75));
    assert_eq!(handle_key(key(Key::Char('1'), KeyKind::Press), &mut s, 8), KeyAction::Nothing);
    s.prev_section();
    assert_eq!(s.selected_section, Section::Presets);
    assert_eq!(handle_key(key(Key::Down, KeyKind::Press), &mut s, 8), KeyAction::Nothing);
    assert_eq!(s.selected_preset, 0);
    handle_key(key(Key::Up, KeyKind::Press), &mut s, 2);
    handle_key(key(Key::Up, KeyKind::Press), &mut s, 2);
    assert_eq!(s.selected_preset, 1);
    assert_eq!(handle_key(key(Key::Enter, KeyKind::Press), &mut s, 2), KeyAction::LoadPreset(1));
    assert_eq!(handle_key(key(Key::Char('8'), KeyKind::Press), &mut s, 2), KeyAction::LoadPreset(7));
    // Digits that double as piano keys load presets here too.
    assert_eq!(handle_key(key(Key::Char('3'), KeyKind::Press), &mut s, 8), KeyAction::LoadPreset(2));
    assert_eq!(handle_key(key(Key::Char('2'), KeyKind::Press), &mut s, 8), KeyAction::LoadPreset(1));
    assert_eq!(handle_key(key(Key::Char('7'), KeyKind::Press), &mut s, 8), KeyAction::LoadPreset(6));
    assert_eq!(s.active_note, Some(75));
    assert_eq!(handle_key(key(Key::Char('z'), KeyKind::Press), &mut s, 8), KeyAction::NoteOn(60));
    assert_eq!(handle_key(key(Key::Char('9'), KeyKind::Press), &mut s, 8), KeyAction::Nothing);
}

#[test]
fn control_keys() {
    let mut s = AppState::new();
    let ctrl = |c| KeyInput {
        code: Key::Char(c),
        kind: KeyKind::Press,
        ctrl: true,
        shift: false,
    };
    assert_eq!(handle_key(ctrl('c'), &mut s, 8), KeyAction::Quit);
    assert_eq!(handle_key(ctrl('s'), &mut s, 8), KeyAction::SavePreset);
    assert_eq!(handle_key(ctrl('x'), &mut s, 8), KeyAction::Nothing);
    assert_eq!(handle_key(key(Key::F(12), KeyKind::Press), &mut s, 8), KeyAction::Quit);
    handle_key(key(Key::F(1), KeyKind::Press), &mut s, 8);
    assert!(s.show_help);
    let shift_tab = KeyInput {
        code: Key::Tab,
        kind: KeyKind::Press,
        ctrl: false,
        shift: true,
    };
    handle_key(shift_tab, &mut s, 8);
    assert_eq!(s.selected_section, Section::Presets);
}

#[test]
fn preset_lookup_by_name() {
    let names = vec!["C64 Bass".to_string(), "Arp Lead".to_string(), "Arp Lead".to_string()];
    assert_eq!(find_preset(&names, &"Arp Lead".to_string()), Some(1));
    assert_eq!(find_preset(&names, &"User 4".to_string()), None);
}

#[test]
fn rolling_buffer_keeps_newest() {
    let mut b: RollingBuf<i32> = RollingBuf::new(3);
    assert!(b.is_empty());
    b.extend(&[1, 2]);
    assert_eq!(b.len(), 2);
    b.extend(&[3, 4, 5]);
    assert_eq!(b.len(), 3);
    assert_eq!((*b.get(0), *b.get(1), *b.get(2)), (3, 4, 5));
    b.push(6);
    assert_eq!(*b.get(0), 4);
    assert_eq!(*b.get(2), 6);
}

#[test]
fn status_line_note_text() {
    assert_eq!(active_note_text(None), "---");
    assert_eq!(active_note_text(Some(69)), "A4(69)");
    assert_eq!(active_note_text(Some(61)), "C#4(61)");
    assert_eq!(active_note_text(Some(0)), "C-1(0)");
    assert_eq!(active_note_text(Some(11)), "B-1(11)");
    assert_eq!(active_note_text(Some(12)), "C0(12)");
    assert_eq!(active_note_text(Some(127)), "G9(127)");
    assert_eq!(active_note_text(Some(255)), "D#20(255)");
}

#[test]
fn upper_row_plays_next_octave() {
    for (lower, upper) in [('z', 'q'), ('s', '2'), ('m', 'u'), ('h', '6')] {
        let lo = key_to_semitone(Key::Char(lower)).unwrap();
        let hi = key_to_semitone(Key::Char(upper)).unwrap();
        assert_eq!(hi, lo + 12);
        assert_eq!(make_midi(3, hi), make_midi(4, lo));
    }
}

#[test]
fn quick_save_name_and_slot() {
    assert_eq!(user_preset_name(8), "User 9");
    assert_eq!(user_preset_name(0), "User 1");
    assert_eq!(user_preset_name(99), "User 100");
    let names: Vec<String> = vec!["C64 Bass".to_string(), "User 3".to_string()];
    let mut s = AppState::new();
    assert_eq!(s.save_preset(&names, &"User 3".to_string()), Some(1));
    assert_eq!(s.selected_preset, 0);
    assert_eq!(s.save_preset(&names, &"User 9".to_string()), None);
    assert_eq!(s.selected_preset, 2);
}

#[test]
fn load_preset_ignores_missing_index() {
    let mut s = AppState::new();
    assert!(s.load_preset(3, 8));
    assert_eq!(s.selected_preset, 3);
    assert!(!s.load_preset(8, 8));
    assert_eq!(s.selected_preset, 3);
}
