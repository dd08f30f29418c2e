//! Plain keyboard input and the two-row piano layout.
//!
//! ```text
//! Bottom row (octave N):   Z  S  X  D  C  V  G  B  H  N  J  M
//! Upper row (octave N+1):  Q  2  W  3  E  R  5  T  6  Y  7  U
//! Note:                    C  C# D  D# E  F  F# G  G# A  A# B
//! ```
//!
//! MIDI note = 12 × (octave + 1) + semitone, clamped to 0..=127.

use vstd::prelude::*;

verus! {

/// A key as the terminal reports it, reduced to what the handlers read.
#[derive(Debug, Clone, Copy, PartialEq, Eq, Structural)]
pub enum Key {
    /// A printable character.
    Char(char),
    /// A function key, `F(1)` for F1.
    F(u8),
    /// Escape.
    Esc,
    /// Enter / Return.
    Enter,
    /// Tab (Shift is carried in [`KeyInput::shift`]).
    Tab,
    /// Cursor up.
    Up,
    /// Cursor down.
    Down,
    /// Cursor left.
    Left,
    /// Cursor right.
    Right,
    /// Delete.
    Delete,
    /// Backspace.
    Backspace,
    /// Page up.
    PageUp,
    /// Page down.
    PageDown,
    /// Any other key.
    Other,
}

/// Whether the key went down, auto-repeated, or came up.
#[derive(Debug, Clone, Copy, PartialEq, Eq, Structural)]
pub enum KeyKind {
    /// Key pressed.
    Press,
    /// Key held, repeated by the terminal.
    Repeat,
    /// Key released.
    Release,
}

/// One keyboard event.
#[derive(Debug, Clone, Copy, PartialEq, Eq, Structural)]
pub struct KeyInput {
    /// Which key.
    pub code: Key,
    /// Press, repeat or release.
    pub kind: KeyKind,
    /// Control held.
    pub ctrl: bool,
    /// Shift held.
    pub shift: bool,
}

/// Semitone offset of a piano key (0 = C of the bottom row, 12 = C of the
/// upper row); `None` for keys outside the piano layout.
pub open spec fn semitone_of(c: char) -> Option<u8> {
    if c == 'z' {
        Some(0u8)
    } else if c == 's' {
        Some(1u8)
    } else if c == 'x' {
        Some(2u8)
    } else if c == 'd' {
        Some(3u8)
    } else if c == 'c' {
        Some(4u8)
    } else if c == 'v' {
        Some(5u8)
    } else if c == 'g' {
        Some(6u8)
    } else if c == 'b' {
        Some(7u8)
    } else if c == 'h' {
        Some(8u8)
    } else if c == 'n' {
        Some(9u8)
    } else if c == 'j' {
        Some(10u8)
    } else if c == 'm' {
        Some(11u8)
    } else if c == 'q' {
        Some(12u8)
    } else if c == '2' {
        Some(13u8)
    } else if c == 'w' {
        Some(14u8)
    } else if c == '3' {
        Some(15u8)
    } else if c == 'e' {
        Some(16u8)
    } else if c == 'r' {
        Some(17u8)
    } else if c == '5' {
        Some(18u8)
    } else if c == 't' {
        Some(19u8)
    } else if c == '6' {
        Some(20u8)
    } else if c == 'y' {
        Some(21u8)
    } else if c == '7' {
        Some(22u8)
    } else if c == 'u' {
        Some(23u8)
    } else {
        None
    }
}

/// Semitone offset of a key, `None` for non-piano keys.
pub open spec fn key_semitone(code: Key) -> Option<u8> {
    match code {
        Key::Char(c) => semitone_of(c),
        _ => None,
    }
}

/// Map a key to its semitone offset within the piano layout.
pub fn key_to_semitone(code: Key) -> (r: Option<u8>)
    ensures
        r == key_semitone(code),
        r matches Some(s) ==> s < 24,
{
    match code {
        Key::Char(c) => match c {
            'z' => Some(0),
            's' => Some(1),
            'x' => Some(2),
            'd' => Some(3),
            'c' => Some(4),
            'v' => Some(5),
            'g' => Some(6),
            'b' => Some(7),
            'h' => Some(8),
            'n' => Some(9),
            'j' => Some(10),
            'm' => Some(11),
            'q' => Some(12),
            '2' => Some(13),
            'w' => Some(14),
            '3' => Some(15),
            'e' => Some(16),
            'r' => Some(17),
            '5' => Some(18),
            't' => Some(19),
            '6' => Some(20),
            'y' => Some(21),
            '7' => Some(22),
            'u' => Some(23),
            _ => None,
        },
        _ => None,
    }
}

/// The MIDI note number of `semitone` above the C of `octave`, clamped to
/// the MIDI range.
pub open spec fn midi_of(octave: i8, semitone: u8) -> u8 {
    let raw = 12 * (octave + 1) + semitone;
    if raw < 0 {
        0
    } else if raw > 127 {
        127
    } else {
        raw as u8
    }
}

/// Convert octave + semitone offset to a MIDI note number, clamped to 0..=127.
pub fn make_midi(octave: i8, semitone: u8) -> (r: u8)
    ensures
        r == midi_of(octave, semitone),
        r <= 127,
{
    let raw: i32 = 12 * (octave as i32 + 1) + semitone as i32;
    if raw < 0 {
        0
    } else if raw > 127 {
        127
    } else {
        raw as u8
    }
}

/// The two piano rows are one octave apart: a semitone of the upper row
/// (12 ..= 23) at octave `n` plays the same note as the matching semitone of
/// the lower row (0 ..= 11) at octave `n + 1`.
pub proof fn lemma_upper_row_is_next_octave(octave: i8, semi: u8)
    requires
        semi < 12,
        octave < 127,
    ensures
        midi_of(octave, (semi + 12) as u8) == midi_of((octave + 1) as i8, semi),
{
}

/// Lower piano row, left to right: C C# D D# E F F# G G# A A# B.
pub open spec fn lower_row() -> Seq<char> {
    seq!['z', 's', 'x', 'd', 'c', 'v', 'g', 'b', 'h', 'n', 'j', 'm']
}

/// Upper piano row, left to right: C C# D D# E F F# G G# A A# B.
pub open spec fn upper_row() -> Seq<char> {
    seq!['q', '2', 'w', '3', 'e', 'r', '5', 't', '6', 'y', '7', 'u']
}

/// The piano layout is chromatic and in order: the `i`-th key of the lower
/// row plays semitone `i` and the `i`-th key of the upper row semitone
/// `i + 12`; distinct piano keys play distinct semitones, and no other key
/// plays one.
pub proof fn lemma_piano_layout(i: int, c1: char, c2: char)
    requires
        0 <= i < 12,
    ensures
        semitone_of(lower_row()[i]) == Some(i as u8),
        semitone_of(upper_row()[i]) == Some((i + 12) as u8),
        semitone_of(c1).is_some() && semitone_of(c1) == semitone_of(c2) ==> c1 == c2,
        semitone_of(c1).is_some() <==> (lower_row().contains(c1) || upper_row().contains(c1)),
{
    let lo = lower_row();
    let up = upper_row();
    if semitone_of(c1).is_some() {
        let v = semitone_of(c1)->0 as int;
        if v < 12 {
            assert(lo[v] == c1);
        } else {
            assert(up[v - 12] == c1);
        }
    }
    if lo.contains(c1) {
        let j = choose|j: int| 0 <= j < lo.len() && lo[j] == c1;
        assert(semitone_of(lo[j]).is_some());
    }
    if up.contains(c1) {
        let j = choose|j: int| 0 <= j < up.len() && up[j] == c1;
        assert(semitone_of(up[j]).is_some());
    }
}

} // verus!
