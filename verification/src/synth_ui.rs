//! Navigation state of the terminal synthesizer and its keyboard handling.
//!
//! [`AppState`] holds what the user navigates: the selected section and
//! parameter, the keyboard octave, the selected preset, the sounding note and
//! the overlay flags.  [`handle_key`] updates it for one key event and tells
//! the caller which audio or parameter action the key asks for.

use crate::keys::{key_semitone, key_to_semitone, make_midi, midi_of, Key, KeyInput, KeyKind};
use crate::tracker::{append_decimal, append_octave, decimal_label, octave_label};
use vstd::prelude::*;
use vstd::string::*;

verus! {

// ─── Section ─────────────────────────────────────────────────────────────────

/// Parameter section of the synthesizer UI.
#[derive(Debug, Clone, Copy, PartialEq, Eq, Structural)]
pub enum Section {
    /// Oscillator.
    Osc,
    /// Amplitude envelope and glide.
    Env,
    /// Filter.
    Filter,
    /// LFO.
    Lfo,
    /// Reverb.
    Fx,
    /// Preset list.
    Presets,
}

/// Number of sections.
pub const SECTION_COUNT: usize = 6;

impl Section {
    /// Position of the section in cycling order.
    pub open spec fn index(self) -> int {
        match self {
            Section::Osc => 0,
            Section::Env => 1,
            Section::Filter => 2,
            Section::Lfo => 3,
            Section::Fx => 4,
            Section::Presets => 5,
        }
    }

    /// The section at position `i` modulo the section count.
    pub open spec fn from_index(i: int) -> Section {
        let k = i % (SECTION_COUNT as int);
        if k == 0 {
            Section::Osc
        } else if k == 1 {
            Section::Env
        } else if k == 2 {
            Section::Filter
        } else if k == 3 {
            Section::Lfo
        } else if k == 4 {
            Section::Fx
        } else {
            Section::Presets
        }
    }

    /// The display name of each section.
    pub open spec fn label(self) -> Seq<char> {
        match self {
            Section::Osc => "OSC"@,
            Section::Env => "ENV"@,
            Section::Filter => "FILTER"@,
            Section::Lfo => "LFO"@,
            Section::Fx => "FX"@,
            Section::Presets => "PRESETS"@,
        }
    }

    /// Number of adjustable parameters of each section (0 = list navigation).
    pub open spec fn params_in(self) -> nat {
        match self {
            Section::Osc => 4,
            Section::Env => 6,
            Section::Filter => 4,
            Section::Lfo => 3,
            Section::Fx => 3,
            Section::Presets => 0,
        }
    }

    /// The section that follows `self`, wrapping after the last one.
    pub open spec fn successor(self) -> Section {
        Section::from_index(self.index() + 1)
    }

    /// The section that precedes `self`, wrapping before the first one.
    pub open spec fn predecessor(self) -> Section {
        Section::from_index(self.index() + SECTION_COUNT - 1)
    }

    /// `k` applications of `successor`.
    pub open spec fn successor_iter(self, k: nat) -> Section
        decreases k,
    {
        if k == 0 {
            self
        } else {
            self.successor_iter((k - 1) as nat).successor()
        }
    }

    /// Display name of the section.
    pub fn name(self) -> (r: &'static str)
        ensures
            r@ == self.label(),
    {
        match self {
            Section::Osc => "OSC",
            Section::Env => "ENV",
            Section::Filter => "FILTER",
            Section::Lfo => "LFO",
            Section::Fx => "FX",
            Section::Presets => "PRESETS",
        }
    }

    /// The next section, wrapping around.
    pub fn next(self) -> (r: Self)
        ensures
            r == self.successor(),
    {
        match self {
            Section::Osc => Section::Env,
            Section::Env => Section::Filter,
            Section::Filter => Section::Lfo,
            Section::Lfo => Section::Fx,
            Section::Fx => Section::Presets,
            Section::Presets => Section::Osc,
        }
    }

    /// The previous section, wrapping around.
    pub fn prev(self) -> (r: Self)
        ensures
            r == self.predecessor(),
    {
        match self {
            Section::Osc => Section::Presets,
            Section::Env => Section::Osc,
            Section::Filter => Section::Env,
            Section::Lfo => Section::Filter,
            Section::Fx => Section::Lfo,
            Section::Presets => Section::Fx,
        }
    }

    /// Number of adjustable params in this section (0 = list navigation).
    pub fn param_count(self) -> (r: usize)
        ensures
            r == self.params_in(),
    {
        match self {
            Section::Osc => 4,
            Section::Env => 6,
            Section::Filter => 4,
            Section::Lfo => 3,
            Section::Fx => 3,
            Section::Presets => 0,
        }
    }
}

/// `next` and `prev` undo each other.
pub proof fn lemma_section_next_prev_inverse(s: Section)
    ensures
        s.successor().predecessor() == s,
        s.predecessor().successor() == s,
{
}

/// Cycling with `next` from any section reaches the section `k` positions
/// further along, and comes back to the start after one full round.
pub proof fn lemma_section_cycle(s: Section, k: nat)
    ensures
        s.successor_iter(k) == Section::from_index(s.index() + k),
        s.successor_iter(SECTION_COUNT as nat) == s,
    decreases k,
{
    if k > 0 {
        lemma_section_cycle(s, (k - 1) as nat);
        let j = s.index() + k - 1;
        assert(Section::from_index(j).index() == j % 6);
        assert((j % 6 + 1) % 6 == (j + 1) % 6);
    }
    lemma_section_cycle_full(s);
}

proof fn lemma_section_cycle_full(s: Section)
    ensures
        s.successor_iter(SECTION_COUNT as nat) == s,
{
    reveal_with_fuel(Section::successor_iter, 7);
}

// ─── AppState ────────────────────────────────────────────────────────────────

/// Highest keyboard octave.
pub const MAX_OCTAVE: i8 = 8;

/// Navigation state of the synthesizer UI.
#[derive(Debug, Clone, Copy, PartialEq, Eq, Structural)]
pub struct AppState {
    /// Section whose parameters are shown.
    pub selected_section: Section,
    /// Parameter index within the section.
    pub selected_param: usize,
    /// Note last pressed and not yet released.
    pub active_note: Option<u8>,
    /// Keyboard octave for the bottom piano row.
    pub octave: i8,
    /// Highlighted entry of the preset list.
    pub selected_preset: usize,
    /// The user asked to quit.
    pub should_quit: bool,
    /// The help overlay is shown.
    pub show_help: bool,
}

impl AppState {
    /// The parameter index addresses a parameter of the section (or is 0 in
    /// the preset list), and the octave lies in `0 ..= MAX_OCTAVE`.
    pub open spec fn wf(self) -> bool {
        &&& (self.selected_param < self.selected_section.params_in() || self.selected_param == 0)
        &&& 0 <= self.octave <= MAX_OCTAVE
    }

    /// State after moving to the next section.
    pub open spec fn with_next_section(self) -> AppState {
        AppState { selected_section: self.selected_section.successor(), selected_param: 0, ..self }
    }

    /// State after moving to the previous section.
    pub open spec fn with_prev_section(self) -> AppState {
        AppState {
            selected_section: self.selected_section.predecessor(),
            selected_param: 0,
            ..self
        }
    }

    /// State after selecting the next parameter of the section, wrapping.
    pub open spec fn with_next_param(self) -> AppState {
        let count = self.selected_section.params_in();
        if count > 0 {
            AppState { selected_param: ((self.selected_param + 1) % (count as int)) as usize, ..self }
        } else {
            self
        }
    }

    /// State after selecting the previous parameter of the section, wrapping.
    pub open spec fn with_prev_param(self) -> AppState {
        let count = self.selected_section.params_in();
        if count > 0 {
            AppState {
                selected_param: if self.selected_param == 0 {
                    (count - 1) as usize
                } else {
                    (self.selected_param - 1) as usize
                },
                ..self
            }
        } else {
            self
        }
    }

    /// State after raising the octave (at most `MAX_OCTAVE`).
    pub open spec fn with_octave_up(self) -> AppState {
        AppState {
            octave: if self.octave + 1 > MAX_OCTAVE {
                MAX_OCTAVE
            } else {
                (self.octave + 1) as i8
            },
            ..self
        }
    }

    /// State after lowering the octave (at least 0).
    pub open spec fn with_octave_down(self) -> AppState {
        AppState {
            octave: if self.octave - 1 < 0 {
                0
            } else {
                (self.octave - 1) as i8
            },
            ..self
        }
    }

    /// State after moving the preset highlight one entry (up = towards the
    /// end of the list), staying inside a list of `preset_count` entries.
    pub open spec fn with_preset_step(self, up: bool, preset_count: usize) -> AppState {
        if preset_count == 0 {
            self
        } else if up && self.selected_preset + 1 < preset_count {
            AppState { selected_preset: (self.selected_preset + 1) as usize, ..self }
        } else if !up && self.selected_preset > 0 {
            AppState { selected_preset: (self.selected_preset - 1) as usize, ..self }
        } else {
            self
        }
    }

    /// Initial state: oscillator section, first parameter, octave 4.
    pub fn new() -> (r: Self)
        ensures
            r.wf(),
            r.selected_section == Section::Osc,
            r.selected_param == 0,
            r.active_note.is_none(),
            r.octave == 4,
            r.selected_preset == 0,
            !r.should_quit,
            !r.show_help,
    {
        AppState {
            selected_section: Section::Osc,
            selected_param: 0,
            active_note: None,
            octave: 4,
            selected_preset: 0,
            should_quit: false,
            show_help: false,
        }
    }

    /// Record a pressed note as the sounding one.
    pub fn note_on(&mut self, midi: u8)
        ensures
            *final(self) == (AppState { active_note: Some(midi), ..*old(self) }),
    {
        self.active_note = Some(midi);
    }

    /// Forget the sounding note if it is the one released.
    pub fn note_off(&mut self, midi: u8)
        ensures
            *final(self) == (if old(self).active_note == Some(midi) {
                AppState { active_note: None, ..*old(self) }
            } else {
                *old(self)
            }),
    {
        match self.active_note {
            Some(n) => {
                if n == midi {
                    self.active_note = None;
                }
            },
            None => {},
        }
    }

    /// Forget the sounding note (all notes are silenced).
    pub fn panic_all_notes(&mut self)
        ensures
            *final(self) == (AppState { active_note: None, ..*old(self) }),
    {
        self.active_note = None;
    }

    /// Move to the next section and its first parameter.
    pub fn next_section(&mut self)
        ensures
            *final(self) == old(self).with_next_section(),
    {
        self.selected_section = self.selected_section.next();
        self.selected_param = 0;
    }

    /// Move to the previous section and its first parameter.
    pub fn prev_section(&mut self)
        ensures
            *final(self) == old(self).with_prev_section(),
    {
        self.selected_section = self.selected_section.prev();
        self.selected_param = 0;
    }

    /// Select the next parameter of the section, wrapping.
    pub fn next_param(&mut self)
        requires
            old(self).selected_param < usize::MAX,
        ensures
            *final(self) == old(self).with_next_param(),
    {
        let count = self.selected_section.param_count();
        if count > 0 {
            self.selected_param = (self.selected_param + 1) % count;
        }
    }

    /// Select the previous parameter of the section, wrapping.
    pub fn prev_param(&mut self)
        ensures
            *final(self) == old(self).with_prev_param(),
    {
        let count = self.selected_section.param_count();
        if count > 0 {
            self.selected_param = if self.selected_param == 0 {
                count - 1
            } else {
                self.selected_param - 1
            };
        }
    }

    /// Move the preset highlight one entry within a list of `preset_count`.
    pub fn adjust_preset(&mut self, up: bool, preset_count: usize)
        ensures
            *final(self) == old(self).with_preset_step(up, preset_count),
    {
        if preset_count == 0 {
            return;
        }
        if up && self.selected_preset < preset_count - 1 {
            self.selected_preset = self.selected_preset + 1;
        } else if !up && self.selected_preset > 0 {
            self.selected_preset = self.selected_preset - 1;
        }
    }

    /// Save the current parameters under `name` into a bank whose names are
    /// `names`: returns the index of the first preset already so named, which
    /// is overwritten, or `None` when the preset is appended, in which case
    /// the new last entry becomes the highlighted preset.
    pub fn save_preset(&mut self, names: &Vec<String>, name: &String) -> (r: Option<usize>)
        ensures
            match r {
                Some(i) => i < names@.len() && names@[i as int]@ == name@ && (forall|j: int|
                    0 <= j < i ==> (#[trigger] names@[j])@ != name@) && *final(self) == *old(self),
                None => (forall|j: int| 0 <= j < names@.len() ==> (#[trigger] names@[j])@ != name@)
                    && *final(self) == (AppState { selected_preset: names@.len() as usize, ..*old(self) }),
            },
    {
        let found = find_preset(names, name);
        if found.is_none() {
            self.selected_preset = names.len();
        }
        found
    }

    /// Highlight preset `idx` of a bank of `preset_count` presets when it
    /// exists; returns whether it does (an index past the bank is ignored).
    pub fn load_preset(&mut self, idx: usize, preset_count: usize) -> (r: bool)
        ensures
            r == (idx < preset_count),
            *final(self) == (if r {
                AppState { selected_preset: idx, ..*old(self) }
            } else {
                *old(self)
            }),
    {
        if idx < preset_count {
            self.selected_preset = idx;
            true
        } else {
            false
        }
    }

    /// Raise the keyboard octave (max 8).
    pub fn octave_up(&mut self)
        ensures
            *final(self) == old(self).with_octave_up(),
    {
        self.octave = if self.octave >= MAX_OCTAVE {
            MAX_OCTAVE
        } else {
            self.octave + 1
        };
    }

    /// Lower the keyboard octave (min 0).
    pub fn octave_down(&mut self)
        ensures
            *final(self) == old(self).with_octave_down(),
    {
        self.octave = if self.octave <= 0 {
            0
        } else {
            self.octave - 1
        };
    }
}

/// Every navigation step keeps the state well-formed.
pub proof fn lemma_navigation_keeps_wf(s: AppState, up: bool, preset_count: usize)
    requires
        s.wf(),
    ensures
        s.with_next_section().wf(),
        s.with_prev_section().wf(),
        s.with_next_param().wf(),
        s.with_prev_param().wf(),
        s.with_octave_up().wf(),
        s.with_octave_down().wf(),
        s.with_preset_step(up, preset_count).wf(),
{
}

/// Stepping to the next parameter and back (or back and forth) returns to
/// the same parameter.
pub proof fn lemma_param_steps_inverse(s: AppState)
    requires
        s.wf(),
    ensures
        s.with_next_param().with_prev_param() == s,
        s.with_prev_param().with_next_param() == s,
{
    let count = s.selected_section.params_in();
    if count > 0 {
        assert(s.selected_param < count);
        if s.selected_param + 1 < count {
            vstd::arithmetic::div_mod::lemma_small_mod((s.selected_param + 1) as nat, count);
        } else {
            vstd::arithmetic::div_mod::lemma_mod_self_0(count as int);
        }
        vstd::arithmetic::div_mod::lemma_small_mod(s.selected_param as nat, count);
        if s.selected_param == 0 {
            vstd::arithmetic::div_mod::lemma_mod_self_0(count as int);
        }
    }
}

/// Index of the first preset called `name`, if any; saving under an existing
/// name overwrites that preset, otherwise the preset is appended.
pub fn find_preset(names: &Vec<String>, name: &String) -> (r: Option<usize>)
    ensures
        match r {
            Some(i) => i < names@.len() && names@[i as int]@ == name@ && forall|j: int|
                0 <= j < i ==> (#[trigger] names@[j])@ != name@,
            None => forall|j: int| 0 <= j < names@.len() ==> (#[trigger] names@[j])@ != name@,
        },
{
    let mut i: usize = 0;
    while i < names.len()
        invariant
            i <= names@.len(),
            forall|j: int| 0 <= j < i ==> (#[trigger] names@[j])@ != name@,
        decreases names.len() - i,
    {
        if names[i] == *name {
            return Some(i);
        }
        i = i + 1;
    }
    None
}

// ─── Status line ─────────────────────────────────────────────────────────────

/// Name of a pitch class in the status line (`"C"`, `"C#"`, …, `"B"`).
pub open spec fn pitch_class_label(semi: int) -> Seq<char> {
    if semi == 0 {
        "C"@
    } else if semi == 1 {
        "C#"@
    } else if semi == 2 {
        "D"@
    } else if semi == 3 {
        "D#"@
    } else if semi == 4 {
        "E"@
    } else if semi == 5 {
        "F"@
    } else if semi == 6 {
        "F#"@
    } else if semi == 7 {
        "G"@
    } else if semi == 8 {
        "G#"@
    } else if semi == 9 {
        "A"@
    } else if semi == 10 {
        "A#"@
    } else {
        "B"@
    }
}

/// Status-line text for the sounding note: pitch class, octave and note
/// number, as in `"A4(69)"`; three dashes when no note sounds.
pub open spec fn active_note_label(active: Option<u8>) -> Seq<char> {
    match active {
        Some(m) => pitch_class_label(m as int % 12) + octave_label(m) + "("@ + decimal_label(
            m as nat,
        ) + ")"@,
        None => "---"@,
    }
}

fn pitch_class_name(semi: u8) -> (r: &'static str)
    requires
        semi < 12,
    ensures
        r@ == pitch_class_label(semi as int),
{
    match semi {
        0 => "C",
        1 => "C#",
        2 => "D",
        3 => "D#",
        4 => "E",
        5 => "F",
        6 => "F#",
        7 => "G",
        8 => "G#",
        9 => "A",
        10 => "A#",
        _ => "B",
    }
}

/// Status-line text for the sounding note (see [`active_note_label`]).
pub fn active_note_text(active: Option<u8>) -> (r: String)
    ensures
        r@ == active_note_label(active),
{
    match active {
        Some(m) => {
            let mut out = String::from_str(pitch_class_name(m % 12));
            append_octave(&mut out, m);
            out.append("(");
            append_decimal(&mut out, m as usize);
            out.append(")");
            out
        },
        None => String::from_str("---"),
    }
}

/// Name under which Ctrl+S saves the current parameters: `"User "` and the
/// number the new preset gets in a bank of `preset_count` presets.
pub open spec fn user_preset_label(preset_count: nat) -> Seq<char> {
    "User "@ + decimal_label(preset_count + 1)
}

/// Name for a quick-saved preset (see [`user_preset_label`]).
pub fn user_preset_name(preset_count: usize) -> (r: String)
    requires
        preset_count < usize::MAX,
    ensures
        r@ == user_preset_label(preset_count as nat),
{
    let mut out = String::from_str("User ");
    append_decimal(&mut out, preset_count + 1);
    out
}

// ─── Key handling ────────────────────────────────────────────────────────────

/// What a key asks the synthesizer to do beyond the navigation state.
#[derive(Debug, Clone, Copy, PartialEq, Eq, Structural)]
pub enum KeyAction {
    /// Nothing more to do.
    Nothing,
    /// Leave the application.
    Quit,
    /// Save the current parameters as a new user preset.
    SavePreset,
    /// Start this MIDI note.
    NoteOn(u8),
    /// Release this MIDI note.
    NoteOff(u8),
    /// Silence all notes.
    Panic,
    /// Step the selected parameter one unit up (`true`) or down (`false`).
    AdjustParam(bool),
    /// Raise the master volume one step.
    VolumeUp,
    /// Lower the master volume one step.
    VolumeDown,
    /// Load the preset at this list index (ignored when out of range).
    LoadPreset(usize),
}

/// Preset quick-select index of a digit key `'1'..='8'`.
pub open spec fn quick_slot(c: char) -> Option<usize> {
    if '1' <= c && c <= '8' {
        Some((c as int - '1' as int) as usize)
    } else {
        None
    }
}

/// Preset quick-select index of a key, `None` for keys other than `'1'..='8'`.
pub open spec fn quick_key(code: Key) -> Option<usize> {
    match code {
        Key::Char(c) => quick_slot(c),
        _ => None,
    }
}

/// New state and action for one key event (see [`handle_key`]).
pub open spec fn key_result(key: KeyInput, s: AppState, preset_count: usize) -> (AppState, KeyAction) {
    if key.ctrl {
        (s, match key.code {
            Key::Char(c) => if c == 'c' || c == 'q' {
                KeyAction::Quit
            } else if c == 's' {
                KeyAction::SavePreset
            } else {
                KeyAction::Nothing
            },
            _ => KeyAction::Nothing,
        })
    } else if key.kind == KeyKind::Release {
        match key_semitone(key.code) {
            Some(semi) => {
                let midi = midi_of(s.octave, semi);
                (
                    if s.active_note == Some(midi) {
                        AppState { active_note: None, ..s }
                    } else {
                        s
                    },
                    KeyAction::NoteOff(midi),
                )
            },
            None => (s, KeyAction::Nothing),
        }
    } else if key.kind == KeyKind::Repeat {
        (s, KeyAction::Nothing)
    } else if s.selected_section == Section::Presets && quick_key(key.code).is_some() {
        (s, KeyAction::LoadPreset(quick_key(key.code)->0))
    } else if key_semitone(key.code).is_some() {
        let midi = midi_of(s.octave, key_semitone(key.code)->0);
        (AppState { active_note: Some(midi), ..s }, KeyAction::NoteOn(midi))
    } else {
        match key.code {
            Key::F(n) => if n == 12 {
                (s, KeyAction::Quit)
            } else if n == 1 {
                (AppState { show_help: !s.show_help, ..s }, KeyAction::Nothing)
            } else {
                (s, KeyAction::Nothing)
            },
            Key::Esc => (AppState { active_note: None, ..s }, KeyAction::Panic),
            Key::Tab => if key.shift {
                (s.with_prev_section(), KeyAction::Nothing)
            } else {
                (s.with_next_section(), KeyAction::Nothing)
            },
            Key::Left => (s.with_prev_param(), KeyAction::Nothing),
            Key::Right => (s.with_next_param(), KeyAction::Nothing),
            Key::Up => if s.selected_section == Section::Presets {
                (s.with_preset_step(true, preset_count), KeyAction::Nothing)
            } else {
                (s, KeyAction::AdjustParam(true))
            },
            Key::Down => if s.selected_section == Section::Presets {
                (s.with_preset_step(false, preset_count), KeyAction::Nothing)
            } else {
                (s, KeyAction::AdjustParam(false))
            },
            Key::Enter => if s.selected_section == Section::Presets {
                (s, KeyAction::LoadPreset(s.selected_preset))
            } else {
                (s, KeyAction::Nothing)
            },
            Key::Char(c) => if c == '+' || c == '=' {
                (s, KeyAction::VolumeUp)
            } else if c == '-' || c == '_' {
                (s, KeyAction::VolumeDown)
            } else if c == '[' || c == ',' {
                (s.with_octave_down(), KeyAction::Nothing)
            } else if c == ']' || c == '.' {
                (s.with_octave_up(), KeyAction::Nothing)
            } else {
                (s, KeyAction::Nothing)
            },
            _ => (s, KeyAction::Nothing),
        }
    }
}

/// Process one key event: update the navigation state and return the action
/// the key asks for.
///
/// `preset_count` is the length of the preset list.  `Up` / `Down` step the
/// selected parameter (as an action) or, in the preset section, the preset
/// highlight (in the state).  In the preset section the digits `1` to `8`
/// load a preset, ahead of the piano keys that share some of them.
pub fn handle_key(key: KeyInput, state: &mut AppState, preset_count: usize) -> (r: KeyAction)
    requires
        old(state).wf(),
    ensures
        (*final(state), r) == key_result(key, *old(state), preset_count),
        final(state).wf(),
        r == KeyAction::Quit ==> *final(state) == *old(state),
{
    if key.ctrl {
        return match key.code {
            Key::Char(c) => if c == 'c' || c == 'q' {
                KeyAction::Quit
            } else if c == 's' {
                KeyAction::SavePreset
            } else {
                KeyAction::Nothing
            },
            _ => KeyAction::Nothing,
        };
    }
    if matches!(key.kind, KeyKind::Release) {
        return match key_to_semitone(key.code) {
            Some(semi) => {
                let midi = make_midi(state.octave, semi);
                state.note_off(midi);
                KeyAction::NoteOff(midi)
            },
            None => KeyAction::Nothing,
        };
    }
    if matches!(key.kind, KeyKind::Repeat) {
        return KeyAction::Nothing;
    }
    // In the preset list the digits 1 to 8 load a preset, also those that
    // double as piano keys.
    if matches!(state.selected_section, Section::Presets) {
        match key.code {
            Key::Char(c) => {
                if '1' <= c && c <= '8' {
                    return KeyAction::LoadPreset(((c as u32) - ('1' as u32)) as usize);
                }
            },
            _ => {},
        }
    }
    match key_to_semitone(key.code) {
        Some(semi) => {
            let midi = make_midi(state.octave, semi);
            state.note_on(midi);
            return KeyAction::NoteOn(midi);
        },
        None => {},
    }
    let presets = matches!(state.selected_section, Section::Presets);
    match key.code {
        Key::F(n) => {
            if n == 12 {
                KeyAction::Quit
            } else {
                if n == 1 {
                    state.show_help = !state.show_help;
                }
                KeyAction::Nothing
            }
        },
        Key::Esc => {
            state.panic_all_notes();
            KeyAction::Panic
        },
        Key::Tab => {
            if key.shift {
                state.prev_section();
            } else {
                state.next_section();
            }
            KeyAction::Nothing
        },
        Key::Left => {
            state.prev_param();
            KeyAction::Nothing
        },
        Key::Right => {
            state.next_param();
            KeyAction::Nothing
        },
        Key::Up => {
            if presets {
                state.adjust_preset(true, preset_count);
                KeyAction::Nothing
            } else {
                KeyAction::AdjustParam(true)
            }
        },
        Key::Down => {
            if presets {
                state.adjust_preset(false, preset_count);
                KeyAction::Nothing
            } else {
                KeyAction::AdjustParam(false)
            }
        },
        Key::Enter => {
            if presets {
                KeyAction::LoadPreset(state.selected_preset)
            } else {
                KeyAction::Nothing
            }
        },
        Key::Char(c) => {
            if c == '+' || c == '=' {
                KeyAction::VolumeUp
            } else if c == '-' || c == '_' {
                KeyAction::VolumeDown
            } else if c == '[' || c == ',' {
                state.octave_down();
                KeyAction::Nothing
            } else if c == ']' || c == '.' {
                state.octave_up();
                KeyAction::Nothing
            } else {
                KeyAction::Nothing
            }
        },
        _ => KeyAction::Nothing,
    }
}

/// Outside the preset list the arrow keys adjust the selected parameter in
/// opposite directions: a pressed `Up` raises it and a pressed `Down` lowers
/// it, and neither changes the navigation state.  In the preset list they
/// move the highlight instead, one entry towards the end and back.
pub proof fn lemma_up_down_adjust_opposite(s: AppState, shift: bool, preset_count: usize)
    requires
        s.wf(),
    ensures
        ({
            let up = key_result(KeyInput { code: Key::Up, kind: KeyKind::Press, ctrl: false, shift }, s, preset_count);
            let down = key_result(KeyInput { code: Key::Down, kind: KeyKind::Press, ctrl: false, shift }, s, preset_count);
            if s.selected_section != Section::Presets {
                &&& up == (s, KeyAction::AdjustParam(true))
                &&& down == (s, KeyAction::AdjustParam(false))
            } else {
                &&& up.1 == KeyAction::Nothing
                &&& down.1 == KeyAction::Nothing
                &&& (s.selected_preset + 1 < preset_count ==> up.0.selected_preset == s.selected_preset + 1
                    && key_result(KeyInput { code: Key::Down, kind: KeyKind::Press, ctrl: false, shift }, up.0, preset_count).0 == s)
                &&& (s.selected_preset > 0 && preset_count > 0 ==> down.0.selected_preset == s.selected_preset - 1)
            }
        }),
{
}

/// The other paired keys also act in opposite directions: `+` and `=` raise
/// the volume and `-` and `_` lower it; `]` and `.` raise the keyboard octave
/// by one (up to `MAX_OCTAVE`) and `[` and `,` lower it by one (down to 0).
pub proof fn lemma_paired_keys_opposite(s: AppState, c: char)
    requires
        s.wf(),
    ensures
        ({
            let r = key_result(KeyInput { code: Key::Char(c), kind: KeyKind::Press, ctrl: false, shift: false }, s, 8);
            &&& (c == '+' || c == '=') ==> r == (s, KeyAction::VolumeUp)
            &&& (c == '-' || c == '_') ==> r == (s, KeyAction::VolumeDown)
            &&& (c == ']' || c == '.') ==> r.1 == KeyAction::Nothing && r.0.octave == (if s.octave < MAX_OCTAVE {
                s.octave + 1
            } else {
                MAX_OCTAVE as int
            })
            &&& (c == '[' || c == ',') ==> r.1 == KeyAction::Nothing && r.0.octave == (if s.octave > 0 {
                s.octave - 1
            } else {
                0
            })
        }),
{
}

} // verus!
