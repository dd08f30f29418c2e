//! Keyboard handling of the tracker.
//!
//! Piano keys enter notes on synth tracks (same two-row layout as the
//! synthesizer); on the drum column `k`, `h` and `o` toggle the kick, the
//! closed and the open hi-hat.

use super::state::{DrumKind, TrackerEffect, TrackerState};
use super::{DRUM_TRACK, SYNTH_TRACKS, TOTAL_TRACKS};
use crate::keys::{key_semitone, key_to_semitone, midi_of, Key, KeyInput, KeyKind};
use crate::params::MidiNote;
use vstd::prelude::*;

verus! {

/// Convert an octave + semitone offset to a clamped MIDI note.
pub fn make_midi(octave: i8, semitone: u8) -> (r: MidiNote)
    ensures
        r.0 == midi_of(octave, semitone),
        r.0 <= 127,
{
    MidiNote(crate::keys::make_midi(octave, semitone))
}

/// Drum instrument a key toggles on the drum column.
pub open spec fn drum_of(code: Key) -> Option<DrumKind> {
    match code {
        Key::Char(c) => if c == 'k' {
            Some(DrumKind::Kick)
        } else if c == 'h' {
            Some(DrumKind::HiHatClosed)
        } else if c == 'o' {
            Some(DrumKind::HiHatOpen)
        } else {
            None
        },
        _ => None,
    }
}

/// State and effect of a note-entry key (see [`handle_key`]).
pub open spec fn note_key_result(code: Key, s: TrackerState) -> (TrackerState, TrackerEffect) {
    if s.cursor_track == DRUM_TRACK {
        match drum_of(code) {
            Some(kind) => s.with_drum_toggled(kind),
            None => (s, TrackerEffect::Nothing),
        }
    } else {
        match key_semitone(code) {
            Some(semi) => s.with_note(MidiNote(midi_of(s.octave, semi))),
            None => (s, TrackerEffect::Nothing),
        }
    }
}

/// `true` when the key steps the preset of the cursor's synth track, which
/// needs a non-empty preset bank.
pub open spec fn steps_patch(key: KeyInput, s: TrackerState) -> bool {
    &&& key.kind == KeyKind::Press
    &&& !key.ctrl
    &&& !s.show_help
    &&& key.code == Key::Tab
    &&& s.cursor_track < SYNTH_TRACKS
}

/// New state and effect of one key event (see [`handle_key`]).
pub open spec fn key_result(key: KeyInput, s: TrackerState) -> (TrackerState, TrackerEffect) {
    if key.kind != KeyKind::Press {
        (s, TrackerEffect::Nothing)
    } else if key.ctrl {
        (s, match key.code {
            Key::Char(c) => if c == 'c' || c == 'q' {
                TrackerEffect::Quit
            } else {
                TrackerEffect::Nothing
            },
            _ => TrackerEffect::Nothing,
        })
    } else if key.code == Key::F(1) {
        (TrackerState { show_help: !s.show_help, ..s }, TrackerEffect::Nothing)
    } else if s.show_help {
        (TrackerState { show_help: false, ..s }, TrackerEffect::Nothing)
    } else {
        match key.code {
            Key::F(n) => if n == 12 {
                (s, TrackerEffect::Quit)
            } else {
                note_key_result(key.code, s)
            },
            Key::Esc => (s, TrackerEffect::Panic),
            Key::Up => (s.with_cursor_up(), TrackerEffect::Nothing),
            Key::Down => (s.with_cursor_down(), TrackerEffect::Nothing),
            Key::Left => (s.with_cursor_left(), TrackerEffect::Nothing),
            Key::Right => (s.with_cursor_right(), TrackerEffect::Nothing),
            Key::Delete => (s.with_cleared(), TrackerEffect::NotifyPlayer),
            Key::Backspace => (s.with_cleared(), TrackerEffect::NotifyPlayer),
            Key::Tab => s.with_patch_step(!key.shift),
            Key::PageUp => s.with_len_up(),
            Key::PageDown => s.with_len_down(),
            Key::Char(c) => if c == ' ' {
                (s, TrackerEffect::TogglePlay)
            } else if c == '+' || c == '=' {
                (s.with_bpm_up(), TrackerEffect::NotifyPlayer)
            } else if c == '-' || c == '_' {
                (s.with_bpm_down(), TrackerEffect::NotifyPlayer)
            } else if c == '[' || c == ',' {
                (s.with_octave_down(), TrackerEffect::Nothing)
            } else if c == ']' || c == '.' {
                (s.with_octave_up(), TrackerEffect::Nothing)
            } else {
                note_key_result(key.code, s)
            },
            _ => note_key_result(key.code, s),
        }
    }
}

/// Handle a note-entry key.
fn handle_note_key(code: Key, state: &mut TrackerState) -> (r: TrackerEffect)
    requires
        old(state).wf(),
    ensures
        (*final(state), r) == note_key_result(code, *old(state)),
        final(state).wf(),
{
    if state.cursor_track == DRUM_TRACK {
        handle_drum_key(code, state)
    } else {
        handle_synth_key(code, state)
    }
}

fn handle_drum_key(code: Key, state: &mut TrackerState) -> (r: TrackerEffect)
    requires
        old(state).wf(),
        old(state).cursor_track == DRUM_TRACK,
    ensures
        (*final(state), r) == match drum_of(code) {
            Some(kind) => old(state).with_drum_toggled(kind),
            None => (*old(state), TrackerEffect::Nothing),
        },
        final(state).wf(),
{
    match code {
        Key::Char(c) => {
            if c == 'k' {
                state.toggle_drum(DrumKind::Kick)
            } else if c == 'h' {
                state.toggle_drum(DrumKind::HiHatClosed)
            } else if c == 'o' {
                state.toggle_drum(DrumKind::HiHatOpen)
            } else {
                TrackerEffect::Nothing
            }
        },
        _ => TrackerEffect::Nothing,
    }
}

fn handle_synth_key(code: Key, state: &mut TrackerState) -> (r: TrackerEffect)
    requires
        old(state).wf(),
        old(state).cursor_track != DRUM_TRACK,
    ensures
        (*final(state), r) == match key_semitone(code) {
            Some(semi) => old(state).with_note(MidiNote(midi_of(old(state).octave, semi))),
            None => (*old(state), TrackerEffect::Nothing),
        },
        final(state).wf(),
{
    match key_to_semitone(code) {
        Some(semi) => {
            let midi = make_midi(state.octave, semi);
            state.enter_note(midi)
        },
        None => TrackerEffect::Nothing,
    }
}

/// Process a single key event: update the editing state and return what the
/// caller has to do (`Quit` when the application should end).
pub fn handle_key(key: KeyInput, state: &mut TrackerState) -> (r: TrackerEffect)
    requires
        old(state).wf(),
        steps_patch(key, *old(state)) ==> old(state).preset_count > 0,
    ensures
        (*final(state), r) == key_result(key, *old(state)),
        final(state).wf(),
{
    if !matches!(key.kind, KeyKind::Press) {
        return TrackerEffect::Nothing;
    }
    if key.ctrl {
        return match key.code {
            Key::Char(c) => if c == 'c' || c == 'q' {
                TrackerEffect::Quit
            } else {
                TrackerEffect::Nothing
            },
            _ => TrackerEffect::Nothing,
        };
    }
    if key.code == Key::F(1) {
        state.show_help = !state.show_help;
        return TrackerEffect::Nothing;
    }
    if state.show_help {
        state.show_help = false;
        return TrackerEffect::Nothing;
    }
    match key.code {
        Key::F(n) => {
            if n == 12 {
                TrackerEffect::Quit
            } else {
                handle_note_key(key.code, state)
            }
        },
        Key::Esc => TrackerEffect::Panic,
        Key::Up => {
            state.cursor_up();
            TrackerEffect::Nothing
        },
        Key::Down => {
            state.cursor_down();
            TrackerEffect::Nothing
        },
        Key::Left => {
            state.cursor_left();
            TrackerEffect::Nothing
        },
        Key::Right => {
            state.cursor_right();
            TrackerEffect::Nothing
        },
        Key::Delete | Key::Backspace => state.clear_step(),
        Key::Tab => {
            if key.shift {
                state.prev_patch()
            } else {
                state.next_patch()
            }
        },
        Key::PageUp => state.pattern_len_up(),
        Key::PageDown => state.pattern_len_down(),
        Key::Char(c) => {
            if c == ' ' {
                TrackerEffect::TogglePlay
            } else if c == '+' || c == '=' {
                state.bpm_up()
            } else if c == '-' || c == '_' {
                state.bpm_down()
            } else if c == '[' || c == ',' {
                state.octave_down();
                TrackerEffect::Nothing
            } else if c == ']' || c == '.' {
                state.octave_up();
                TrackerEffect::Nothing
            } else {
                handle_note_key(key.code, state)
            }
        },
        _ => handle_note_key(key.code, state),
    }
}

/// The arrow keys move the cursor one cell in their own direction, wrapping:
/// `Down` to the next row and `Up` to the previous one, `Right` to the next
/// column and `Left` to the previous one; nothing else changes.
pub proof fn lemma_arrow_keys_move_cursor(s: TrackerState, shift: bool)
    requires
        s.wf(),
        !s.show_help,
    ensures
        ({
            let press = |code: Key| KeyInput { code, kind: KeyKind::Press, ctrl: false, shift };
            let len = s.song.pattern.len as int;
            let down = key_result(press(Key::Down), s).0;
            let up = key_result(press(Key::Up), s).0;
            let right = key_result(press(Key::Right), s).0;
            let left = key_result(press(Key::Left), s).0;
            &&& down == TrackerState { cursor_row: ((s.cursor_row + 1) % len) as usize, ..s }
            &&& up == TrackerState { cursor_row: ((s.cursor_row + len - 1) % len) as usize, ..s }
            &&& right == TrackerState { cursor_track: ((s.cursor_track + 1) % (TOTAL_TRACKS as int)) as usize, ..s }
            &&& left == TrackerState { cursor_track: ((s.cursor_track + TOTAL_TRACKS - 1) % (TOTAL_TRACKS as int)) as usize, ..s }
        }),
{
    let len = s.song.pattern.len as int;
    if s.cursor_row == 0 {
        vstd::arithmetic::div_mod::lemma_small_mod((len - 1) as nat, len as nat);
    } else {
        vstd::arithmetic::div_mod::lemma_mod_add_multiples_vanish(s.cursor_row - 1, len);
        vstd::arithmetic::div_mod::lemma_small_mod((s.cursor_row - 1) as nat, len as nat);
    }
    let n = TOTAL_TRACKS as int;
    if s.cursor_track == 0 {
        vstd::arithmetic::div_mod::lemma_small_mod((n - 1) as nat, n as nat);
    } else {
        vstd::arithmetic::div_mod::lemma_mod_add_multiples_vanish(s.cursor_track - 1, n);
        vstd::arithmetic::div_mod::lemma_small_mod((s.cursor_track - 1) as nat, n as nat);
    }
}

} // verus!
