//! Layout helpers for drawing the pattern grid.

use super::{append_decimal, decimal_label, note_label, note_name, DrumStep, Step};
use vstd::prelude::*;
use vstd::string::*;

verus! {

/// First visible row of a window of `visible` rows over `len` rows that keeps
/// `cursor` centred where possible.
pub open spec fn window_start(cursor: int, len: int, visible: int) -> int {
    if visible >= len {
        0
    } else {
        let half = visible / 2;
        if cursor < half {
            0
        } else if cursor + visible - half > len {
            len - visible
        } else {
            cursor - half
        }
    }
}

/// Scroll offset that keeps the cursor row centred in the visible window.
pub fn scroll_offset(cursor: usize, len: usize, visible: usize) -> (r: usize)
    requires
        visible < len ==> cursor + visible <= usize::MAX,
    ensures
        r == window_start(cursor as int, len as int, visible as int),
{
    if visible >= len {
        return 0;
    }
    let half = visible / 2;
    if cursor < half {
        0
    } else if cursor + visible - half > len {
        len - visible
    } else {
        cursor - half
    }
}

/// The window always shows the cursor row and never runs past the last row.
pub proof fn lemma_window_shows_cursor(cursor: int, len: int, visible: int)
    requires
        0 <= cursor < len,
        0 < visible,
    ensures
        0 <= window_start(cursor, len, visible) <= cursor,
        cursor < window_start(cursor, len, visible) + visible,
        visible < len ==> window_start(cursor, len, visible) + visible <= len,
{
}

/// `s` cut to its first `max_chars` characters.
pub open spec fn prefix_chars(s: Seq<char>, max_chars: int) -> Seq<char> {
    if max_chars < s.len() {
        s.take(max_chars)
    } else {
        s
    }
}

/// Truncate a string to `max_chars` characters (no ellipsis).
pub fn truncate(s: &str, max_chars: usize) -> (r: &str)
    ensures
        r@ == prefix_chars(s@, max_chars as int),
{
    let n = s.unicode_len();
    if max_chars < n {
        s.substring_char(0, max_chars)
    } else {
        s
    }
}

/// Text of a synth cell: the note name, or dashes for a rest.
pub open spec fn step_cell_label(step: Step) -> Seq<char> {
    match step.note {
        Some(n) => " "@ + note_label(n.0),
        None => " ---"@,
    }
}

/// Text of a synth cell of the grid.
pub fn step_cell_text(step: Step) -> (r: String)
    ensures
        r@ == step_cell_label(step),
{
    match step.note {
        Some(n) => {
            let mut out = String::from_str(" ");
            let name = note_name(n);
            out.append(name.as_str());
            out
        },
        None => String::from_str(" ---"),
    }
}

/// Text of a drum cell: `K`, `h`, `O` for kick, closed and open hi-hat, a
/// dot for each instrument that does not hit.
pub open spec fn drum_cell_label(d: DrumStep) -> Seq<char> {
    seq![' ', if d.kick { 'K' } else { '.' }, ' ', if d.hihat_closed { 'h' } else { '.' }, ' ', if d.hihat_open { 'O' } else { '.' }]
}

fn flag_char(on: bool, mark: &'static str) -> (r: &'static str)
    ensures
        r@ == (if on { mark@ } else { "."@ }),
{
    if on {
        mark
    } else {
        "."
    }
}

/// Text of a drum cell of the grid.
pub fn drum_cell_text(d: DrumStep) -> (r: String)
    ensures
        r@ == drum_cell_label(d),
{
    let mut out = String::from_str(" ");
    out.append(flag_char(d.kick, "K"));
    out.append(" ");
    out.append(flag_char(d.hihat_closed, "h"));
    out.append(" ");
    out.append(flag_char(d.hihat_open, "O"));
    proof {
        reveal_strlit(" ");
        reveal_strlit("K");
        reveal_strlit("h");
        reveal_strlit("O");
        reveal_strlit(".");
        assert(out@ =~= drum_cell_label(d));
    }
    out
}

/// Row number cell: a play marker (or a blank) and the row number, padded
/// with a leading zero to at least two digits.
pub open spec fn row_cell_label(row: nat, playing: bool) -> Seq<char> {
    (if playing {
        "►"@
    } else {
        " "@
    }) + (if row < 10 {
        "0"@ + decimal_label(row)
    } else {
        decimal_label(row)
    })
}

/// Text of the row number cell; `playing` marks the row that just fired.
pub fn row_cell_text(row: usize, playing: bool) -> (r: String)
    ensures
        r@ == row_cell_label(row as nat, playing),
{
    let mut out = String::from_str(if playing {
        "►"
    } else {
        " "
    });
    if row < 10 {
        out.append("0");
    }
    append_decimal(&mut out, row);
    proof {
        assert(out@ =~= row_cell_label(row as nat, playing));
    }
    out
}

} // verus!
