//! Editing state of the tracker: the song, the cursor, the keyboard octave.
//!
//! Every edit returns a [`TrackerEffect`] that tells the caller whether the
//! playback thread needs the new song or a track's preset must be reloaded.

use super::{DrumStep, Pattern, Song, Step, DRUM_TRACK, MAX_BPM, MIN_BPM, STEPS, SYNTH_TRACKS, TOTAL_TRACKS};
use crate::params::MidiNote;
use vstd::prelude::*;

verus! {

/// Which drum instrument to toggle on the drum track.
#[derive(Debug, Clone, Copy, PartialEq, Eq, Structural)]
pub enum DrumKind {
    /// Kick drum.
    Kick,
    /// Closed hi-hat.
    HiHatClosed,
    /// Open hi-hat.
    HiHatOpen,
}

/// What the caller has to do after an edit.
#[derive(Debug, Clone, Copy, PartialEq, Eq, Structural)]
pub enum TrackerEffect {
    /// Nothing.
    Nothing,
    /// Send the new song snapshot to the playback thread.
    NotifyPlayer,
    /// Load the preset now assigned to this synth track onto its channel.
    ReloadTrackPatch(usize),
    /// Silence all voices.
    Panic,
    /// Start playback if stopped, stop it if playing.
    TogglePlay,
    /// Leave the application.
    Quit,
}

/// Highest keyboard octave.
pub const MAX_OCTAVE: i8 = 8;

/// All state owned by the tracker UI apart from playback and audio.
#[derive(Debug, Clone, Copy)]
pub struct TrackerState {
    /// Song being edited.
    pub song: Song,
    /// Number of presets in the bank.
    pub preset_count: usize,
    /// Cursor row (step index, `0..song.pattern.len`).
    pub cursor_row: usize,
    /// Cursor track column (`0..TOTAL_TRACKS`).
    pub cursor_track: usize,
    /// Current keyboard octave for note entry.
    pub octave: i8,
    /// `true` → show the help overlay.
    pub show_help: bool,
}

/// The drum step with one instrument toggled.
pub open spec fn toggled(d: DrumStep, kind: DrumKind) -> DrumStep {
    match kind {
        DrumKind::Kick => DrumStep { kick: !d.kick, ..d },
        DrumKind::HiHatClosed => DrumStep { hihat_closed: !d.hihat_closed, ..d },
        DrumKind::HiHatOpen => DrumStep { hihat_open: !d.hihat_open, ..d },
    }
}

impl TrackerState {
    /// The pattern length is valid, the cursor lies on an active row and an
    /// existing column, the octave is in range, and every track's preset
    /// index is its initial one (the track number) or lies in the bank.
    pub open spec fn wf(self) -> bool {
        &&& self.song.pattern.wf()
        &&& self.cursor_row < self.song.pattern.len
        &&& self.cursor_track < TOTAL_TRACKS
        &&& 0 <= self.octave <= MAX_OCTAVE
        &&& forall|t: int|
            0 <= t < SYNTH_TRACKS ==> #[trigger] self.song.track_patches[t] < SYNTH_TRACKS
                || self.song.track_patches[t] < self.preset_count
    }

    /// State after moving the cursor up one row, wrapping to the last row.
    pub open spec fn with_cursor_up(self) -> TrackerState {
        TrackerState {
            cursor_row: if self.cursor_row == 0 {
                (self.song.pattern.len - 1) as usize
            } else {
                (self.cursor_row - 1) as usize
            },
            ..self
        }
    }

    /// State after moving the cursor down one row, wrapping to the first row.
    pub open spec fn with_cursor_down(self) -> TrackerState {
        TrackerState {
            cursor_row: ((self.cursor_row + 1) % (self.song.pattern.len as int)) as usize,
            ..self
        }
    }

    /// State after moving the cursor left one column, wrapping.
    pub open spec fn with_cursor_left(self) -> TrackerState {
        TrackerState {
            cursor_track: if self.cursor_track == 0 {
                (TOTAL_TRACKS - 1) as usize
            } else {
                (self.cursor_track - 1) as usize
            },
            ..self
        }
    }

    /// State after moving the cursor right one column, wrapping.
    pub open spec fn with_cursor_right(self) -> TrackerState {
        TrackerState { cursor_track: ((self.cursor_track + 1) % (TOTAL_TRACKS as int)) as usize, ..self }
    }

    /// State and effect after entering `midi` at the cursor.
    pub open spec fn with_note(self, midi: MidiNote) -> (TrackerState, TrackerEffect) {
        if self.cursor_track < SYNTH_TRACKS {
            let s = TrackerState {
                song: Song {
                    pattern: self.song.pattern.with_step(
                        self.cursor_track as int,
                        self.cursor_row as int,
                        Step { note: Some(midi) },
                    ),
                    ..self.song
                },
                ..self
            };
            (s.with_cursor_down(), TrackerEffect::NotifyPlayer)
        } else {
            (self, TrackerEffect::Nothing)
        }
    }

    /// State after clearing the step at the cursor.
    pub open spec fn with_cleared(self) -> TrackerState {
        let pattern = if self.cursor_track < SYNTH_TRACKS {
            self.song.pattern.with_step(
                self.cursor_track as int,
                self.cursor_row as int,
                Step { note: None },
            )
        } else {
            self.song.pattern.with_drums(self.cursor_row as int, DrumStep::default_spec())
        };
        TrackerState { song: Song { pattern, ..self.song }, ..self }.with_cursor_down()
    }

    /// State and effect after toggling a drum hit at the cursor.
    pub open spec fn with_drum_toggled(self, kind: DrumKind) -> (TrackerState, TrackerEffect) {
        if self.cursor_track == DRUM_TRACK {
            let row = self.cursor_row as int;
            let s = TrackerState {
                song: Song {
                    pattern: self.song.pattern.with_drums(row, toggled(self.song.pattern.drums[row], kind)),
                    ..self.song
                },
                ..self
            };
            (s.with_cursor_down(), TrackerEffect::NotifyPlayer)
        } else {
            (self, TrackerEffect::Nothing)
        }
    }

    /// State after raising the tempo by one BPM (at most `MAX_BPM`).
    pub open spec fn with_bpm_up(self) -> TrackerState {
        let bpm = if self.song.bpm >= MAX_BPM {
            MAX_BPM
        } else {
            (self.song.bpm + 1) as u32
        };
        TrackerState { song: Song { bpm, ..self.song }, ..self }
    }

    /// State after lowering the tempo by one BPM (at least `MIN_BPM`).
    pub open spec fn with_bpm_down(self) -> TrackerState {
        let bpm = if self.song.bpm <= MIN_BPM + 1 {
            MIN_BPM
        } else {
            (self.song.bpm - 1) as u32
        };
        TrackerState { song: Song { bpm, ..self.song }, ..self }
    }

    /// State after raising the keyboard octave (at most `MAX_OCTAVE`).
    pub open spec fn with_octave_up(self) -> TrackerState {
        TrackerState {
            octave: if self.octave >= MAX_OCTAVE {
                MAX_OCTAVE
            } else {
                (self.octave + 1) as i8
            },
            ..self
        }
    }

    /// State after lowering the keyboard octave (at least 0).
    pub open spec fn with_octave_down(self) -> TrackerState {
        TrackerState {
            octave: if self.octave <= 0 {
                0
            } else {
                (self.octave - 1) as i8
            },
            ..self
        }
    }

    /// State and effect after moving the cursor track to the next (`up`) or
    /// previous preset of the bank, wrapping.
    pub open spec fn with_patch_step(self, up: bool) -> (TrackerState, TrackerEffect) {
        if self.cursor_track < SYNTH_TRACKS {
            let t = self.cursor_track as int;
            let cur = self.song.track_patches[t];
            let new_idx: usize = if up {
                ((cur + 1) % (self.preset_count as int)) as usize
            } else if cur == 0 {
                (self.preset_count - 1) as usize
            } else {
                (cur - 1) as usize
            };
            (
                TrackerState {
                    song: Song {
                        track_patches: vstd::array::spec_array_update(self.song.track_patches, t, new_idx),
                        ..self.song
                    },
                    ..self
                },
                TrackerEffect::ReloadTrackPatch(self.cursor_track),
            )
        } else {
            (self, TrackerEffect::Nothing)
        }
    }

    /// State and effect after lengthening the pattern by one row.
    pub open spec fn with_len_up(self) -> (TrackerState, TrackerEffect) {
        if self.song.pattern.len < STEPS {
            (
                TrackerState {
                    song: Song {
                        pattern: Pattern { len: (self.song.pattern.len + 1) as usize, ..self.song.pattern },
                        ..self.song
                    },
                    ..self
                },
                TrackerEffect::NotifyPlayer,
            )
        } else {
            (self, TrackerEffect::Nothing)
        }
    }

    /// State and effect after shortening the pattern by one row; the cursor
    /// moves onto the new last row if it was beyond it.
    pub open spec fn with_len_down(self) -> (TrackerState, TrackerEffect) {
        if self.song.pattern.len > 1 {
            let len = (self.song.pattern.len - 1) as usize;
            (
                TrackerState {
                    song: Song { pattern: Pattern { len, ..self.song.pattern }, ..self.song },
                    cursor_row: if self.cursor_row >= len {
                        (len - 1) as usize
                    } else {
                        self.cursor_row
                    },
                    ..self
                },
                TrackerEffect::NotifyPlayer,
            )
        } else {
            (self, TrackerEffect::Nothing)
        }
    }

    /// Initial state: empty song, cursor at the top left, octave 4.
    pub fn new(preset_count: usize) -> (r: Self)
        ensures
            r.wf(),
            r.song.bpm == 120,
            r.song.pattern.len == STEPS,
            forall|t: int| 0 <= t < SYNTH_TRACKS ==> #[trigger] r.song.track_patches[t] == t,
            forall|t: int, i: int|
                0 <= t < SYNTH_TRACKS && 0 <= i < STEPS ==> (#[trigger] r.song.pattern.step_at(
                    t,
                    i,
                )).note.is_none(),
            forall|i: int| 0 <= i < STEPS ==> (#[trigger] r.song.pattern.drums[i]) == DrumStep::default_spec(),
            r.preset_count == preset_count,
            r.cursor_row == 0,
            r.cursor_track == 0,
            r.octave == 4,
            !r.show_help,
    {
        TrackerState {
            song: Song::new(),
            preset_count,
            cursor_row: 0,
            cursor_track: 0,
            octave: 4,
            show_help: false,
        }
    }

    /// Move the cursor up one row, wrapping to the last step.
    pub fn cursor_up(&mut self)
        requires
            old(self).wf(),
        ensures
            *final(self) == old(self).with_cursor_up(),
            final(self).wf(),
    {
        if self.cursor_row == 0 {
            self.cursor_row = self.song.pattern.len - 1;
        } else {
            self.cursor_row = self.cursor_row - 1;
        }
    }

    /// Move the cursor down one row, wrapping to the first step.
    pub fn cursor_down(&mut self)
        requires
            old(self).wf(),
        ensures
            *final(self) == old(self).with_cursor_down(),
            final(self).wf(),
    {
        self.cursor_row = (self.cursor_row + 1) % self.song.pattern.len;
    }

    /// Move the cursor left one track, wrapping.
    pub fn cursor_left(&mut self)
        requires
            old(self).wf(),
        ensures
            *final(self) == old(self).with_cursor_left(),
            final(self).wf(),
    {
        if self.cursor_track == 0 {
            self.cursor_track = TOTAL_TRACKS - 1;
        } else {
            self.cursor_track = self.cursor_track - 1;
        }
    }

    /// Move the cursor right one track, wrapping.
    pub fn cursor_right(&mut self)
        requires
            old(self).wf(),
        ensures
            *final(self) == old(self).with_cursor_right(),
            final(self).wf(),
    {
        self.cursor_track = (self.cursor_track + 1) % TOTAL_TRACKS;
    }

    /// Enter a note at the cursor position on a synth track, then advance.
    ///
    /// No-op if the cursor is on the drum track.
    pub fn enter_note(&mut self, midi: MidiNote) -> (r: TrackerEffect)
        requires
            old(self).wf(),
        ensures
            (*final(self), r) == old(self).with_note(midi),
            final(self).wf(),
    {
        if self.cursor_track < SYNTH_TRACKS {
            self.song.pattern.set_step(self.cursor_track, self.cursor_row, Step { note: Some(midi) });
            self.cursor_down();
            TrackerEffect::NotifyPlayer
        } else {
            TrackerEffect::Nothing
        }
    }

    /// Clear the step at the cursor position, then advance.
    ///
    /// On a synth track this removes the note; on the drum track it clears
    /// all hits.
    pub fn clear_step(&mut self) -> (r: TrackerEffect)
        requires
            old(self).wf(),
        ensures
            *final(self) == old(self).with_cleared(),
            r == TrackerEffect::NotifyPlayer,
            final(self).wf(),
    {
        if self.cursor_track < SYNTH_TRACKS {
            self.song.pattern.set_step(self.cursor_track, self.cursor_row, Step { note: None });
        } else {
            self.song.pattern.set_drums(
                self.cursor_row,
                DrumStep { kick: false, hihat_closed: false, hihat_open: false },
            );
        }
        self.cursor_down();
        TrackerEffect::NotifyPlayer
    }

    /// Toggle a drum hit at the cursor row and advance.
    ///
    /// No-op if the cursor is on a synth track.
    pub fn toggle_drum(&mut self, kind: DrumKind) -> (r: TrackerEffect)
        requires
            old(self).wf(),
        ensures
            (*final(self), r) == old(self).with_drum_toggled(kind),
            final(self).wf(),
    {
        if self.cursor_track == DRUM_TRACK {
            let d = self.song.pattern.drums[self.cursor_row];
            let t = match kind {
                DrumKind::Kick => DrumStep { kick: !d.kick, ..d },
                DrumKind::HiHatClosed => DrumStep { hihat_closed: !d.hihat_closed, ..d },
                DrumKind::HiHatOpen => DrumStep { hihat_open: !d.hihat_open, ..d },
            };
            self.song.pattern.set_drums(self.cursor_row, t);
            self.cursor_down();
            TrackerEffect::NotifyPlayer
        } else {
            TrackerEffect::Nothing
        }
    }

    /// Increase BPM by 1 (max 300).
    pub fn bpm_up(&mut self) -> (r: TrackerEffect)
        requires
            old(self).wf(),
        ensures
            *final(self) == old(self).with_bpm_up(),
            r == TrackerEffect::NotifyPlayer,
            final(self).wf(),
    {
        self.song.bpm = if self.song.bpm >= MAX_BPM {
            MAX_BPM
        } else {
            self.song.bpm + 1
        };
        TrackerEffect::NotifyPlayer
    }

    /// Decrease BPM by 1 (min 30).
    pub fn bpm_down(&mut self) -> (r: TrackerEffect)
        requires
            old(self).wf(),
        ensures
            *final(self) == old(self).with_bpm_down(),
            r == TrackerEffect::NotifyPlayer,
            final(self).wf(),
    {
        self.song.bpm = if self.song.bpm <= MIN_BPM + 1 {
            MIN_BPM
        } else {
            self.song.bpm - 1
        };
        TrackerEffect::NotifyPlayer
    }

    /// Raise the keyboard octave by one (max 8).
    pub fn octave_up(&mut self)
        requires
            old(self).wf(),
        ensures
            *final(self) == old(self).with_octave_up(),
            final(self).wf(),
    {
        self.octave = if self.octave >= MAX_OCTAVE {
            MAX_OCTAVE
        } else {
            self.octave + 1
        };
    }

    /// Lower the keyboard octave by one (min 0).
    pub fn octave_down(&mut self)
        requires
            old(self).wf(),
        ensures
            *final(self) == old(self).with_octave_down(),
            final(self).wf(),
    {
        self.octave = if self.octave <= 0 {
            0
        } else {
            self.octave - 1
        };
    }

    /// Cycle to the next preset on the current synth track.
    pub fn next_patch(&mut self) -> (r: TrackerEffect)
        requires
            old(self).wf(),
            old(self).cursor_track < SYNTH_TRACKS ==> old(self).preset_count > 0,
        ensures
            (*final(self), r) == old(self).with_patch_step(true),
            final(self).wf(),
    {
        if self.cursor_track < SYNTH_TRACKS {
            let t = self.cursor_track;
            let current = self.song.track_patches[t];
            let next = (current + 1) % self.preset_count;
            self.song.track_patches[t] = next;
            proof {
                broadcast use vstd::array::group_array_axioms;

                assert(self.song.track_patches =~= vstd::array::spec_array_update(
                    old(self).song.track_patches,
                    t as int,
                    next,
                ));
            }
            TrackerEffect::ReloadTrackPatch(t)
        } else {
            TrackerEffect::Nothing
        }
    }

    /// Cycle to the previous preset on the current synth track.
    pub fn prev_patch(&mut self) -> (r: TrackerEffect)
        requires
            old(self).wf(),
            old(self).cursor_track < SYNTH_TRACKS ==> old(self).preset_count > 0,
        ensures
            (*final(self), r) == old(self).with_patch_step(false),
            final(self).wf(),
    {
        if self.cursor_track < SYNTH_TRACKS {
            let t = self.cursor_track;
            let current = self.song.track_patches[t];
            let prev = if current == 0 {
                self.preset_count - 1
            } else {
                current - 1
            };
            self.song.track_patches[t] = prev;
            proof {
                broadcast use vstd::array::group_array_axioms;

                assert(self.song.track_patches =~= vstd::array::spec_array_update(
                    old(self).song.track_patches,
                    t as int,
                    prev,
                ));
            }
            TrackerEffect::ReloadTrackPatch(t)
        } else {
            TrackerEffect::Nothing
        }
    }

    /// Increase the active pattern length by 1 step (max `STEPS`).
    pub fn pattern_len_up(&mut self) -> (r: TrackerEffect)
        requires
            old(self).wf(),
        ensures
            (*final(self), r) == old(self).with_len_up(),
            final(self).wf(),
    {
        if self.song.pattern.len < STEPS {
            self.song.pattern.len = self.song.pattern.len + 1;
            TrackerEffect::NotifyPlayer
        } else {
            TrackerEffect::Nothing
        }
    }

    /// Decrease the active pattern length by 1 step (min 1).
    pub fn pattern_len_down(&mut self) -> (r: TrackerEffect)
        requires
            old(self).wf(),
        ensures
            (*final(self), r) == old(self).with_len_down(),
            final(self).wf(),
    {
        if self.song.pattern.len > 1 {
            self.song.pattern.len = self.song.pattern.len - 1;
            if self.cursor_row >= self.song.pattern.len {
                self.cursor_row = self.song.pattern.len - 1;
            }
            TrackerEffect::NotifyPlayer
        } else {
            TrackerEffect::Nothing
        }
    }
}

/// Moving the cursor one row (or column) and back lands where it started.
pub proof fn lemma_cursor_moves_inverse(s: TrackerState)
    requires
        s.wf(),
    ensures
        s.with_cursor_up().with_cursor_down() == s,
        s.with_cursor_down().with_cursor_up() == s,
        s.with_cursor_left().with_cursor_right() == s,
        s.with_cursor_right().with_cursor_left() == s,
{
    let len = s.song.pattern.len as int;
    if s.cursor_row == 0 {
        vstd::arithmetic::div_mod::lemma_mod_self_0(len);
    } else {
        vstd::arithmetic::div_mod::lemma_small_mod(s.cursor_row as nat, len as nat);
    }
    if s.cursor_row + 1 < len {
        vstd::arithmetic::div_mod::lemma_small_mod((s.cursor_row + 1) as nat, len as nat);
    } else {
        vstd::arithmetic::div_mod::lemma_mod_self_0(len);
    }
}

/// A note entered on a synth track sits in the pattern and leaves every other
/// step as it was; the cursor moves to the next row.
pub proof fn lemma_entered_note_stored(s: TrackerState, midi: MidiNote)
    requires
        s.wf(),
        s.cursor_track < SYNTH_TRACKS,
    ensures
        s.with_note(midi).0.song.pattern.step_at(s.cursor_track as int, s.cursor_row as int).note
            == Some(midi),
        forall|t: int, i: int|
            0 <= t < SYNTH_TRACKS && 0 <= i < STEPS && (t != s.cursor_track || i != s.cursor_row)
                ==> #[trigger] s.with_note(midi).0.song.pattern.step_at(t, i) == s.song.pattern.step_at(
                t,
                i,
            ),
        s.with_note(midi).0.cursor_row == (s.cursor_row + 1) % (s.song.pattern.len as int),
{
    broadcast use vstd::array::group_array_axioms;

    let p = s.song.pattern;
    let t0 = s.cursor_track as int;
    let r0 = s.cursor_row as int;
    let inner = vstd::array::spec_array_update(p.synth[t0], r0, Step { note: Some(midi) });
    assert(inner@ == p.synth[t0]@.update(r0, Step { note: Some(midi) }));
    let outer = vstd::array::spec_array_update(p.synth, t0, inner);
    assert(outer@ == p.synth@.update(t0, inner));
    assert forall|t: int, i: int|
        0 <= t < SYNTH_TRACKS && 0 <= i < STEPS && (t != t0 || i != r0) implies #[trigger] s.with_note(
        midi,
    ).0.song.pattern.step_at(t, i) == p.step_at(t, i) by {
        if t == t0 {
            assert(outer[t] == inner);
        } else {
            assert(outer[t] == p.synth[t]);
        }
    }
}

/// The tempo stays in `MIN_BPM ..= MAX_BPM`: it starts at 120 and neither
/// tempo key leaves the range.
pub proof fn lemma_bpm_stays_in_range(s: TrackerState)
    requires
        MIN_BPM <= s.song.bpm <= MAX_BPM,
    ensures
        MIN_BPM <= s.with_bpm_up().song.bpm <= MAX_BPM,
        MIN_BPM <= s.with_bpm_down().song.bpm <= MAX_BPM,
        s.song.bpm < MAX_BPM ==> s.with_bpm_up().with_bpm_down() == s,
        s.song.bpm > MIN_BPM ==> s.with_bpm_down().with_bpm_up() == s,
{
}

/// Whether a drum step hits with the given instrument.
pub open spec fn hits(d: DrumStep, kind: DrumKind) -> bool {
    match kind {
        DrumKind::Kick => d.kick,
        DrumKind::HiHatClosed => d.hihat_closed,
        DrumKind::HiHatOpen => d.hihat_open,
    }
}

/// Toggling an instrument flips exactly that instrument's hit and leaves the
/// other two as they were, so toggling it twice gives the step back; on the
/// drum column `toggle_drum` does this at the cursor row.
pub proof fn lemma_toggle_flips_one_hit(s: TrackerState, d: DrumStep, kind: DrumKind, other: DrumKind)
    requires
        s.wf(),
        s.cursor_track == DRUM_TRACK,
    ensures
        hits(toggled(d, kind), kind) == !hits(d, kind),
        other != kind ==> hits(toggled(d, kind), other) == hits(d, other),
        toggled(toggled(d, kind), kind) == d,
        hits(s.with_drum_toggled(kind).0.song.pattern.drums[s.cursor_row as int], kind) == !hits(
            s.song.pattern.drums[s.cursor_row as int],
            kind,
        ),
        other != kind ==> hits(s.with_drum_toggled(kind).0.song.pattern.drums[s.cursor_row as int], other)
            == hits(s.song.pattern.drums[s.cursor_row as int], other),
{
    let p = s.song.pattern;
    let r = s.cursor_row as int;
    let nd = toggled(p.drums[r], kind);
    assert(vstd::array::spec_array_update(p.drums, r, nd)[r] == nd) by {
        broadcast use vstd::array::group_array_axioms;
    }
}

} // verus!
