//! Core data model of the step-sequencer tracker.
//!
//! A [`Pattern`] holds a grid of [`Step`]s (synth tracks × rows) plus a
//! parallel [`DrumStep`] column.  The [`Song`] bundles one pattern with a
//! tempo and per-track preset assignments.

pub mod input;
pub mod player;
pub mod state;
pub mod view;

use crate::params::MidiNote;
use vstd::prelude::*;
use vstd::string::*;

verus! {

/// Number of steps (rows) in a pattern.
pub const STEPS: usize = 16;

/// Number of independent synth tracks per pattern.
pub const SYNTH_TRACKS: usize = 4;

/// Total column count: synth tracks + 1 drum column.
pub const TOTAL_TRACKS: usize = SYNTH_TRACKS + 1;

/// Index of the drum track among the columns.
pub const DRUM_TRACK: usize = SYNTH_TRACKS;

/// Slowest tempo reachable with the tempo keys.
pub const MIN_BPM: u32 = 30;

/// Fastest tempo reachable with the tempo keys.
pub const MAX_BPM: u32 = 300;

// ─── Step ────────────────────────────────────────────────────────────────────

/// A single step on a synth track.
#[derive(Debug, Clone, Copy, PartialEq, Eq, Structural)]
pub struct Step {
    /// MIDI note triggered at this step, or `None` for a rest.
    pub note: Option<MidiNote>,
}

impl Default for Step {
    fn default() -> (r: Self)
        ensures
            r.note.is_none(),
    {
        Step { note: None }
    }
}

// ─── DrumStep ────────────────────────────────────────────────────────────────

/// Which drum hits are active at a single step.
#[derive(Debug, Clone, Copy, PartialEq, Eq, Structural)]
pub struct DrumStep {
    /// Kick drum hit.
    pub kick: bool,
    /// Closed hi-hat hit.
    pub hihat_closed: bool,
    /// Open hi-hat hit.
    pub hihat_open: bool,
}

impl Default for DrumStep {
    fn default() -> (r: Self)
        ensures
            !r.kick,
            !r.hihat_closed,
            !r.hihat_open,
    {
        DrumStep { kick: false, hihat_closed: false, hihat_open: false }
    }
}

// ─── Pattern ─────────────────────────────────────────────────────────────────

/// One pattern: `SYNTH_TRACKS` columns × `STEPS` rows plus a drum track.
#[derive(Debug, Clone, Copy)]
pub struct Pattern {
    /// `synth[track][row]` – the step at `(row, track)`.
    pub synth: [[Step; STEPS]; SYNTH_TRACKS],
    /// Drum hits per row.
    pub drums: [DrumStep; STEPS],
    /// Active step count (1..=`STEPS`).  Rows ≥ `len` are silenced.
    pub len: usize,
}

impl Pattern {
    /// The active length is between one step and the full grid.
    pub open spec fn wf(self) -> bool {
        1 <= self.len <= STEPS
    }

    /// The step at `(row, track)` of a synth track.
    pub open spec fn step_at(self, track: int, row: int) -> Step {
        self.synth[track][row]
    }

    /// The pattern with the step at `(row, track)` replaced.
    pub open spec fn with_step(self, track: int, row: int, step: Step) -> Pattern {
        Pattern {
            synth: vstd::array::spec_array_update(
                self.synth,
                track,
                vstd::array::spec_array_update(self.synth[track], row, step),
            ),
            ..self
        }
    }

    /// The pattern with the drum step of `row` replaced.
    pub open spec fn with_drums(self, row: int, drums: DrumStep) -> Pattern {
        Pattern { drums: vstd::array::spec_array_update(self.drums, row, drums), ..self }
    }

    /// An empty pattern of full length.
    pub fn new() -> (r: Self)
        ensures
            r.wf(),
            r.len == STEPS,
            forall|t: int, i: int|
                0 <= t < SYNTH_TRACKS && 0 <= i < STEPS ==> (#[trigger] r.step_at(t, i)).note.is_none(),
            forall|i: int| 0 <= i < STEPS ==> (#[trigger] r.drums[i]) == DrumStep::default_spec(),
    {
        let col = [Step { note: None };STEPS];
        Pattern {
            synth: [col, col, col, col],
            drums: [DrumStep { kick: false, hihat_closed: false, hihat_open: false };STEPS],
            len: STEPS,
        }
    }

    /// Store `step` at `(row, track)`.
    pub fn set_step(&mut self, track: usize, row: usize, step: Step)
        requires
            track < SYNTH_TRACKS,
            row < STEPS,
        ensures
            *final(self) == old(self).with_step(track as int, row as int, step),
            final(self).step_at(track as int, row as int) == step,
            forall|t: int, i: int|
                0 <= t < SYNTH_TRACKS && 0 <= i < STEPS && (t != track || i != row)
                    ==> #[trigger] final(self).step_at(t, i) == old(self).step_at(t, i),
    {
        let mut col = self.synth[track];
        col[row] = step;
        self.synth[track] = col;
        proof {
            broadcast use vstd::array::group_array_axioms;

            let inner = vstd::array::spec_array_update(old(self).synth[track as int], row as int, step);
            assert(col =~= inner);
            assert(self.synth =~= vstd::array::spec_array_update(old(self).synth, track as int, inner));
        }
    }

    /// Store `drums` at `row`.
    pub fn set_drums(&mut self, row: usize, drums: DrumStep)
        requires
            row < STEPS,
        ensures
            *final(self) == old(self).with_drums(row as int, drums),
            final(self).drums[row as int] == drums,
            forall|i: int| 0 <= i < STEPS && i != row ==> #[trigger] final(self).drums[i] == old(self).drums[i],
    {
        self.drums[row] = drums;
        proof {
            broadcast use vstd::array::group_array_axioms;

            assert(self.drums =~= vstd::array::spec_array_update(old(self).drums, row as int, drums));
        }
    }
}

impl DrumStep {
    /// No hit.
    pub open spec fn default_spec() -> DrumStep {
        DrumStep { kick: false, hihat_closed: false, hihat_open: false }
    }
}

// ─── Song ────────────────────────────────────────────────────────────────────

/// Full song data: one pattern + tempo + per-track preset assignments.
#[derive(Debug, Clone, Copy)]
pub struct Song {
    /// Playback tempo in beats per minute.
    pub bpm: u32,
    /// The pattern to play.
    pub pattern: Pattern,
    /// Preset index from the preset bank, one per synth track.
    pub track_patches: [usize; SYNTH_TRACKS],
}

impl Song {
    /// Empty full-length pattern at 120 BPM, tracks on presets 0..=3.
    pub fn new() -> (r: Self)
        ensures
            r.pattern.wf(),
            r.pattern.len == STEPS,
            r.bpm == 120,
            forall|t: int| 0 <= t < SYNTH_TRACKS ==> #[trigger] r.track_patches[t] == t,
            forall|t: int, i: int|
                0 <= t < SYNTH_TRACKS && 0 <= i < STEPS ==> (#[trigger] r.pattern.step_at(
                    t,
                    i,
                )).note.is_none(),
            forall|i: int| 0 <= i < STEPS ==> (#[trigger] r.pattern.drums[i]) == DrumStep::default_spec(),
    {
        Song { bpm: 120, pattern: Pattern::new(), track_patches: [0, 1, 2, 3] }
    }
}

// ─── Note names ──────────────────────────────────────────────────────────────

/// Two-character name of a semitone within the octave (`"C-"`, `"C#"`, …).
pub open spec fn semitone_label(semi: int) -> Seq<char> {
    if semi == 0 {
        "C-"@
    } else if semi == 1 {
        "C#"@
    } else if semi == 2 {
        "D-"@
    } else if semi == 3 {
        "D#"@
    } else if semi == 4 {
        "E-"@
    } else if semi == 5 {
        "F-"@
    } else if semi == 6 {
        "F#"@
    } else if semi == 7 {
        "G-"@
    } else if semi == 8 {
        "G#"@
    } else if semi == 9 {
        "A-"@
    } else if semi == 10 {
        "A#"@
    } else {
        "B-"@
    }
}

/// The decimal digit `d` as a one-character string.
pub open spec fn digit_label(d: int) -> Seq<char> {
    if d == 0 {
        "0"@
    } else if d == 1 {
        "1"@
    } else if d == 2 {
        "2"@
    } else if d == 3 {
        "3"@
    } else if d == 4 {
        "4"@
    } else if d == 5 {
        "5"@
    } else if d == 6 {
        "6"@
    } else if d == 7 {
        "7"@
    } else if d == 8 {
        "8"@
    } else {
        "9"@
    }
}

/// Decimal notation of a natural number, without leading zeros.
pub open spec fn decimal_label(n: nat) -> Seq<char>
    decreases n,
{
    if n < 10 {
        digit_label(n as int)
    } else {
        decimal_label(n / 10) + digit_label((n % 10) as int)
    }
}

/// Scientific octave of a MIDI note, in which note 60 (middle C) is in
/// octave 4; the lowest twelve notes are in octave `-1`.
pub open spec fn octave_label(midi: u8) -> Seq<char> {
    if midi < 12 {
        "-1"@
    } else {
        decimal_label((midi / 12 - 1) as nat)
    }
}

/// Tracker-style name of a note: semitone name followed by the octave, as
/// in `"C-4"` for middle C.
pub open spec fn note_label(n: u8) -> Seq<char> {
    semitone_label(n as int % 12) + octave_label(n)
}

fn semitone_name(semi: u8) -> (r: &'static str)
    requires
        semi < 12,
    ensures
        r@ == semitone_label(semi as int),
{
    match semi {
        0 => "C-",
        1 => "C#",
        2 => "D-",
        3 => "D#",
        4 => "E-",
        5 => "F-",
        6 => "F#",
        7 => "G-",
        8 => "G#",
        9 => "A-",
        10 => "A#",
        _ => "B-",
    }
}

pub(crate) fn digit_name(d: u8) -> (r: &'static str)
    requires
        d < 10,
    ensures
        r@ == digit_label(d as int),
{
    match d {
        0 => "0",
        1 => "1",
        2 => "2",
        3 => "3",
        4 => "4",
        5 => "5",
        6 => "6",
        7 => "7",
        8 => "8",
        _ => "9",
    }
}

/// Append the decimal notation of `n` to `out`.
pub(crate) fn append_decimal(out: &mut String, n: usize)
    ensures
        final(out)@ == old(out)@ + decimal_label(n as nat),
    decreases n,
{
    if n >= 10 {
        append_decimal(out, n / 10);
    }
    out.append(digit_name((n % 10) as u8));
    proof {
        assert(out@ =~= old(out)@ + decimal_label(n as nat));
    }
}

/// Append the scientific octave of `midi` to `out`.
pub(crate) fn append_octave(out: &mut String, midi: u8)
    ensures
        final(out)@ == old(out)@ + octave_label(midi),
{
    if midi < 12 {
        out.append("-1");
    } else {
        append_decimal(out, (midi / 12 - 1) as usize);
    }
}

/// Format a MIDI note number as a tracker-style string (e.g. `"C-4"` for
/// middle C, `"C#4"`).
pub fn note_name(note: MidiNote) -> (r: String)
    ensures
        r@ == note_label(note.0),
{
    let n = note.as_u8();
    let mut out = String::from_str(semitone_name(n % 12));
    append_octave(&mut out, n);
    out
}

/// From note 12 (C0) to note 131 the name is three characters wide; the
/// lowest twelve notes (octave `-1`) and notes from 132 on take four.
pub proof fn lemma_note_label_width(n: u8)
    requires
        12 <= n <= 131,
    ensures
        note_label(n).len() == 3,
{
    reveal_strlit("C-");
    reveal_strlit("C#");
    reveal_strlit("D-");
    reveal_strlit("D#");
    reveal_strlit("E-");
    reveal_strlit("F-");
    reveal_strlit("F#");
    reveal_strlit("G-");
    reveal_strlit("G#");
    reveal_strlit("A-");
    reveal_strlit("A#");
    reveal_strlit("B-");
    reveal_strlit("0");
    reveal_strlit("1");
    reveal_strlit("2");
    reveal_strlit("3");
    reveal_strlit("4");
    reveal_strlit("5");
    reveal_strlit("6");
    reveal_strlit("7");
    reveal_strlit("8");
    reveal_strlit("9");
    assert((n / 12 - 1) < 10);
}

} // verus!
