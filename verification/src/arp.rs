//! Arpeggiator: a note list of up to four entries, four playback orders, and
//! the per-sample decision of which note to release and which to start.
//!
//! The step clock itself is a phase accumulator kept by the caller; each
//! sample it reports whether its gate point was reached before the clock
//! advanced (`gate_due`) and whether the clock crossed a step boundary
//! (`wrapped`).  Everything else — the note order, the bounce of `UpDown`,
//! the random choice, and which events fire — is decided here.

use crate::lfsr::{lfsr_next, lfsr_step, LFSR_SEED};
use crate::params::MidiNote;
use vstd::prelude::*;

verus! {

/// Capacity of the arpeggiator's note list.
pub const ARP_MAX_NOTES: usize = 4;

/// Playback order of the note list.
#[derive(Debug, Clone, Copy, PartialEq, Eq, Structural)]
pub enum ArpMode {
    /// Lowest index to highest, wrapping.
    Up,
    /// Highest index to lowest, wrapping.
    Down,
    /// Up then down, bouncing at both ends without repeating them.
    UpDown,
    /// A pseudo-random entry each step.
    Random,
}

/// The arpeggiator's note list and playback order.
#[derive(Debug, Clone, Copy)]
pub struct ArpNotes {
    /// Playback order.
    pub mode: ArpMode,
    /// Note slots; only the first `count` are in use.
    pub notes: [MidiNote; ARP_MAX_NOTES],
    /// Number of notes in use.
    pub count: u8,
}

impl ArpNotes {
    /// The notes in use, in list order.
    pub open spec fn active(self) -> Seq<MidiNote> {
        self.notes@.take(self.count as int)
    }

    /// The list never claims more entries than it has slots for.
    pub open spec fn wf(self) -> bool {
        self.count <= ARP_MAX_NOTES
    }

    /// An empty list in `Up` order.
    pub fn new() -> (r: Self)
        ensures
            r.wf(),
            r.count == 0,
            r.mode == ArpMode::Up,
            forall|i: int| 0 <= i < ARP_MAX_NOTES ==> (#[trigger] r.notes@[i]).0 == 60,
    {
        ArpNotes {
            mode: ArpMode::Up,
            notes: [MidiNote(60), MidiNote(60), MidiNote(60), MidiNote(60)],
            count: 0,
        }
    }
}

/// Notes released and started in one sample.
///
/// When both are present, apply `off` before `on`.
#[derive(Debug, Clone, Copy, PartialEq, Eq, Structural)]
pub struct ArpEvents {
    /// Note to release this sample, if any.
    pub off: Option<MidiNote>,
    /// Note to trigger this sample, if any.
    pub on: Option<MidiNote>,
}

impl ArpEvents {
    /// Neither a release nor a start.
    pub fn none() -> (r: Self)
        ensures
            r.off.is_none(),
            r.on.is_none(),
    {
        ArpEvents { off: None, on: None }
    }
}

/// Playback state of the arpeggiator (apart from the step clock).
#[derive(Debug, Clone, Copy, PartialEq, Eq, Structural)]
pub struct Arpeggiator {
    /// Index into the note list.
    pub step: u8,
    /// Note currently held by the arpeggiator; `None` when between steps.
    pub sounding: Option<MidiNote>,
    /// `true` once the release has been emitted for the current step's note.
    pub gate_fired: bool,
    /// Direction flag for `UpDown` mode: `0` = ascending, `1` = descending.
    pub direction: u8,
    /// LFSR state for `Random` mode.
    pub lfsr: u32,
}

/// Next `(step, direction)` of the `UpDown` bounce.
pub open spec fn updown_next(step: u8, direction: u8, count: u8) -> (u8, u8) {
    if count <= 1 {
        (0, direction)
    } else if direction == 0 {
        if step + 1 >= count {
            ((count - 2) as u8, 1)
        } else {
            ((step + 1) as u8, direction)
        }
    } else if step == 0 {
        (1, 0)
    } else {
        ((step - 1) as u8, direction)
    }
}

impl Arpeggiator {
    /// The step index always addresses a slot of the note list.
    pub open spec fn wf(self) -> bool {
        self.step < ARP_MAX_NOTES
    }

    /// The step addresses a note in use, or is 0 (the first slot, where an
    /// empty list starts filling).
    pub open spec fn in_list(self, notes: ArpNotes) -> bool {
        self.step == 0 || self.step < notes.count
    }

    /// Position, direction and LFSR after one step in the given mode.
    pub open spec fn advanced(self, notes: ArpNotes) -> Arpeggiator {
        let count = notes.count;
        if count == 0 {
            self
        } else {
            match notes.mode {
                ArpMode::Up => Arpeggiator { step: ((self.step + 1) % (count as int)) as u8, ..self },
                ArpMode::Down => Arpeggiator {
                    step: ((self.step + count - 1) % (count as int)) as u8,
                    ..self
                },
                ArpMode::UpDown => Arpeggiator {
                    step: updown_next(self.step, self.direction, count).0,
                    direction: updown_next(self.step, self.direction, count).1,
                    ..self
                },
                ArpMode::Random => Arpeggiator {
                    step: (lfsr_next(self.lfsr) % (count as u32)) as u8,
                    lfsr: lfsr_next(self.lfsr),
                    ..self
                },
            }
        }
    }

    /// Create a new, idle arpeggiator.
    pub fn new() -> (r: Self)
        ensures
            r.wf(),
            r.step == 0,
            r.sounding.is_none(),
            !r.gate_fired,
            r.direction == 0,
            r.lfsr == LFSR_SEED,
            forall|notes: ArpNotes| #[trigger] r.in_list(notes),
    {
        Arpeggiator { step: 0, sounding: None, gate_fired: false, direction: 0, lfsr: LFSR_SEED }
    }

    /// Move to the next step in the list's playback order.
    pub fn advance_step(&mut self, notes: &ArpNotes)
        requires
            notes.wf(),
            old(self).wf(),
        ensures
            *final(self) == old(self).advanced(*notes),
            final(self).wf(),
            notes.count > 0 && (notes.mode != ArpMode::UpDown || old(self).step < notes.count)
                ==> final(self).step < notes.count,
    {
        let count = notes.count;
        if count == 0 {
            return;
        }
        match notes.mode {
            ArpMode::Up => {
                self.step = (self.step + 1) % count;
            },
            ArpMode::Down => {
                self.step = (self.step + count - 1) % count;
            },
            ArpMode::UpDown => {
                self.advance_step_updown(count);
            },
            ArpMode::Random => {
                self.lfsr = lfsr_step(self.lfsr);
                self.step = (self.lfsr % (count as u32)) as u8;
            },
        }
    }

    /// One step of the `UpDown` bounce.
    pub fn advance_step_updown(&mut self, count: u8)
        requires
            count <= ARP_MAX_NOTES,
            old(self).wf(),
        ensures
            final(self).step == updown_next(old(self).step, old(self).direction, count).0,
            final(self).direction == updown_next(old(self).step, old(self).direction, count).1,
            final(self).sounding == old(self).sounding,
            final(self).gate_fired == old(self).gate_fired,
            final(self).lfsr == old(self).lfsr,
            final(self).wf(),
            old(self).step < count ==> final(self).step < count,
    {
        if count <= 1 {
            self.step = 0;
            return;
        }
        if self.direction == 0 {
            if self.step + 1 >= count {
                self.step = count - 2;
                self.direction = 1;
            } else {
                self.step = self.step + 1;
            }
        } else if self.step == 0 {
            self.step = 1;
            self.direction = 0;
        } else {
            self.step = self.step - 1;
        }
    }

    /// Advance one sample and return the note events that fire this sample.
    ///
    /// `gate_due` tells whether the step clock had reached its gate point
    /// before this sample; `wrapped` whether it crossed a step boundary during
    /// this sample.
    pub fn tick(&mut self, notes: &ArpNotes, gate_due: bool, wrapped: bool) -> (r: ArpEvents)
        requires
            notes.wf(),
            old(self).wf(),
        ensures
            final(self).wf(),
            notes.count == 0 ==> *final(self) == *old(self) && r.off.is_none() && r.on.is_none(),
            notes.count > 0 ==> {
                let stepped = wrapped && old(self).sounding.is_some();
                let moved = if stepped {
                    old(self).advanced(*notes)
                } else {
                    *old(self)
                };
                &&& r.off == (if old(self).sounding.is_some() && !old(self).gate_fired && (gate_due
                    || wrapped) {
                    old(self).sounding
                } else {
                    None
                })
                &&& final(self).step == moved.step
                &&& final(self).direction == moved.direction
                &&& final(self).lfsr == moved.lfsr
                &&& r.on == (if stepped || old(self).sounding.is_none() {
                    Some(notes.notes@[moved.step as int])
                } else {
                    None
                })
                &&& final(self).sounding == (if r.on.is_some() {
                    r.on
                } else {
                    old(self).sounding
                })
                &&& final(self).gate_fired == (if wrapped {
                    false
                } else {
                    old(self).gate_fired || (old(self).sounding.is_some() && gate_due)
                })
                &&& (old(self).step < notes.count || (stepped && notes.mode != ArpMode::UpDown))
                    ==> final(self).step < notes.count
            },
            old(self).in_list(*notes) ==> final(self).in_list(*notes) && (r.on matches Some(n)
                ==> notes.active().contains(n)),
    {
        if notes.count == 0 {
            return ArpEvents::none();
        }
        let mut result = ArpEvents::none();

        // Gate expiry: the release fires once the clock has passed its gate point.
        if self.sounding.is_some() && !self.gate_fired && gate_due {
            result.off = self.sounding;
            self.gate_fired = true;
        }
        if wrapped {
            let pre_gate_fired = self.gate_fired;
            self.gate_fired = false;
            match self.sounding {
                Some(note) => {
                    self.sounding = None;
                    // Full-length gate: the release is deferred to the boundary.
                    if !pre_gate_fired {
                        result.off = Some(note);
                    }
                    self.advance_step(notes);
                },
                None => {},
            }
        }
        // Start a new note whenever the arpeggiator is not sounding one.

        if self.sounding.is_none() {
            let note = notes.notes[self.step as usize];
            self.sounding = Some(note);
            result.on = Some(note);
            proof {
                if old(self).in_list(*notes) {
                    assert(notes.active()[self.step as int] == note);
                }
            }
        }
        result
    }

    /// Add `note` to the list if it is not already present and space remains.
    pub fn add_note(&mut self, params: &mut ArpNotes, note: MidiNote)
        requires
            old(params).wf(),
        ensures
            final(params).wf(),
            *final(self) == *old(self),
            final(params).mode == old(params).mode,
            if old(params).count >= ARP_MAX_NOTES || old(params).active().contains(note) {
                *final(params) == *old(params)
            } else {
                &&& final(params).count == old(params).count + 1
                &&& final(params).notes@ == old(params).notes@.update(old(params).count as int, note)
                &&& final(params).active() == old(params).active().push(note)
            },
            old(self).in_list(*old(params)) ==> final(self).in_list(*final(params)),
    {
        if params.count as usize >= ARP_MAX_NOTES {
            return;
        }
        let count = params.count as usize;
        let mut i: usize = 0;
        while i < count
            invariant
                i <= count,
                count == params.count,
                count < ARP_MAX_NOTES,
                forall|j: int| 0 <= j < i ==> params.notes@[j] != note,
            decreases count - i,
        {
            if params.notes[i] == note {
                proof {
                    assert(params.active()[i as int] == note);
                }
                return;
            }
            i = i + 1;
        }
        proof {
            assert forall|j: int| 0 <= j < count implies params.active()[j] != note by {
                assert(params.active()[j] == params.notes@[j]);
            }
        }
        params.notes[count] = note;
        params.count = params.count + 1;
        proof {
            assert(params.active() == old(params).active().push(note));
        }
    }

    /// Remove `note` from the list, shifting the remaining entries down.
    pub fn remove_note(&mut self, params: &mut ArpNotes, note: MidiNote)
        requires
            old(params).wf(),
            old(self).wf(),
        ensures
            final(params).wf(),
            final(self).wf(),
            final(params).mode == old(params).mode,
            final(self).sounding == old(self).sounding,
            final(self).gate_fired == old(self).gate_fired,
            final(self).direction == old(self).direction,
            final(self).lfsr == old(self).lfsr,
            !old(params).active().contains(note) ==> *final(params) == *old(params) && *final(self)
                == *old(self),
            old(params).active().contains(note) ==> {
                let pos = old(params).active().index_of_first(note)->0;
                &&& final(params).count == old(params).count - 1
                &&& final(params).active() == old(params).active().remove(pos)
                &&& final(params).notes@.subrange(
                    final(params).count as int,
                    ARP_MAX_NOTES as int,
                ) == old(params).notes@.subrange(final(params).count as int, ARP_MAX_NOTES as int)
                &&& final(self).step == (if final(params).count > 0 && old(self).step
                    >= final(params).count {
                    (final(params).count - 1) as u8
                } else {
                    old(self).step
                })
            },
            old(self).in_list(*old(params)) ==> final(self).in_list(*final(params)),
    {
        let count = params.count as usize;
        let mut pos: usize = 0;
        while pos < count && params.notes[pos] != note
            invariant
                pos <= count,
                count == params.count,
                count <= ARP_MAX_NOTES,
                *params == *old(params),
                forall|j: int| 0 <= j < pos ==> params.notes@[j] != note,
            decreases count - pos,
        {
            pos = pos + 1;
        }
        proof {
            let act = old(params).active();
            act.index_of_first_ensures(note);
            if pos < count {
                assert(act[pos as int] == note);
            } else {
                assert forall|j: int| 0 <= j < act.len() implies act[j] != note by {
                    assert(act[j] == params.notes@[j]);
                }
            }
        }
        if pos == count {
            return;
        }
        let ghost old_notes = params.notes@;
        let mut i: usize = pos;
        while i + 1 < count
            invariant
                pos <= i < count,
                count == params.count,
                count <= ARP_MAX_NOTES,
                params.mode == old(params).mode,
                params.notes@.len() == ARP_MAX_NOTES,
                old_notes.len() == ARP_MAX_NOTES,
                forall|j: int| 0 <= j < pos ==> params.notes@[j] == old_notes[j],
                forall|j: int| pos <= j < i ==> params.notes@[j] == old_notes[j + 1],
                forall|j: int| i <= j < ARP_MAX_NOTES ==> params.notes@[j] == old_notes[j],
            decreases count - i,
        {
            let next = params.notes[i + 1];
            params.notes[i] = next;
            i = i + 1;
        }
        params.count = params.count - 1;
        if params.count > 0 && self.step >= params.count {
            self.step = params.count - 1;
        }
        proof {
            let act = old(params).active();
            let pos_spec = act.index_of_first(note)->0;
            act.index_of_first_ensures(note);
            assert(pos_spec == pos as int);
            assert(params.active() =~= act.remove(pos as int));
            assert(params.notes@.subrange(params.count as int, ARP_MAX_NOTES as int)
                =~= old_notes.subrange(params.count as int, ARP_MAX_NOTES as int));
        }
    }

    /// Replace the list with `notes` (up to four entries) and reset playback.
    pub fn set_notes(&mut self, params: &mut ArpNotes, notes: &[MidiNote])
        ensures
            final(params).wf(),
            final(params).mode == old(params).mode,
            final(params).count == (if notes@.len() < ARP_MAX_NOTES {
                notes@.len()
            } else {
                ARP_MAX_NOTES as nat
            }),
            final(params).active() == notes@.take(final(params).count as int),
            final(params).notes@.subrange(final(params).count as int, ARP_MAX_NOTES as int)
                == old(params).notes@.subrange(final(params).count as int, ARP_MAX_NOTES as int),
            final(self).wf(),
            final(self).step == 0,
            final(self).direction == 0,
            final(self).sounding.is_none(),
            !final(self).gate_fired,
            final(self).lfsr == old(self).lfsr,
            final(self).in_list(*final(params)),
    {
        let n = if notes.len() < ARP_MAX_NOTES {
            notes.len()
        } else {
            ARP_MAX_NOTES
        };
        let ghost old_notes = params.notes@;
        let mut i: usize = 0;
        while i < n
            invariant
                i <= n,
                n <= notes@.len(),
                n <= ARP_MAX_NOTES,
                params.mode == old(params).mode,
                params.notes@.len() == ARP_MAX_NOTES,
                forall|j: int| 0 <= j < i ==> params.notes@[j] == notes@[j],
                forall|j: int| i <= j < ARP_MAX_NOTES ==> params.notes@[j] == old_notes[j],
            decreases n - i,
        {
            params.notes[i] = notes[i];
            i = i + 1;
        }
        params.count = n as u8;
        self.step = 0;
        self.direction = 0;
        self.sounding = None;
        self.gate_fired = false;
        proof {
            assert(params.active() =~= notes@.take(n as int));
            assert(params.notes@.subrange(n as int, ARP_MAX_NOTES as int) =~= old_notes.subrange(
                n as int,
                ARP_MAX_NOTES as int,
            ));
        }
    }

    /// Clear the list and all playback state.
    pub fn panic(&mut self, params: &mut ArpNotes)
        ensures
            final(self).in_list(*final(params)),
            final(params).count == 0,
            final(params).mode == old(params).mode,
            final(params).notes == old(params).notes,
            final(self).wf(),
            final(self).step == 0,
            final(self).direction == 0,
            final(self).sounding.is_none(),
            !final(self).gate_fired,
            final(self).lfsr == old(self).lfsr,
    {
        params.count = 0;
        self.step = 0;
        self.direction = 0;
        self.sounding = None;
        self.gate_fired = false;
    }
}

/// The arpeggiator only ever plays notes of its list.  Its step is
/// [`Arpeggiator::in_list`] after `new`, `set_notes` and `panic`, and
/// `add_note`, `remove_note` and `tick` keep it so; such an arpeggiator
/// stands on a listed note whenever the list is not empty, and one step in
/// any order keeps it there.
pub proof fn lemma_step_stays_in_list(a: Arpeggiator, notes: ArpNotes)
    requires
        notes.wf(),
        a.wf(),
        a.in_list(notes),
    ensures
        notes.count > 0 ==> notes.active().contains(notes.notes@[a.step as int]),
        a.advanced(notes).in_list(notes),
{
    if notes.count > 0 {
        assert(notes.active()[a.step as int] == notes.notes@[a.step as int]);
        if notes.mode == ArpMode::UpDown && notes.count > 1 {
            let c = notes.count;
            assert(updown_next(a.step, a.direction, c).0 < c);
        }
    }
}

/// Adding notes never puts the same note in the list twice.
pub proof fn lemma_add_note_keeps_distinct(before: ArpNotes, after: ArpNotes, note: MidiNote)
    requires
        before.wf(),
        before.active().no_duplicates(),
        if before.count >= ARP_MAX_NOTES || before.active().contains(note) {
            after == before
        } else {
            after.active() == before.active().push(note)
        },
    ensures
        after.active().no_duplicates(),
{
    if !(before.count >= ARP_MAX_NOTES || before.active().contains(note)) {
        let b = before.active();
        assert forall|i: int, j: int|
            0 <= i < b.len() + 1 && 0 <= j < b.len() + 1 && i != j implies b.push(note)[i] != b.push(
            note,
        )[j] by {
            if i == b.len() {
                assert(b.contains(b[j]));
            } else if j == b.len() {
                assert(b.contains(b[i]));
            }
        }
    }
}

/// `k` steps of `Up` order from position `s`.
pub open spec fn up_iter(s: int, count: int, k: nat) -> int
    decreases k,
{
    if k == 0 {
        s
    } else {
        (up_iter(s, count, (k - 1) as nat) + 1) % count
    }
}

/// In `Up` order the arpeggiator plays the list round-robin: after `k` steps
/// from position `s` it stands at `(s + k) mod count`, so it returns to the
/// start after `count` steps.
pub proof fn lemma_up_round_robin(s: int, count: int, k: nat)
    requires
        0 <= s < count,
    ensures
        up_iter(s, count, k) == (s + k) % count,
        up_iter(s, count, count as nat) == s,
{
    lemma_up_iter_closed(s, count, k);
    lemma_up_iter_closed(s, count, count as nat);
    vstd::arithmetic::div_mod::lemma_mod_add_multiples_vanish(s, count);
    vstd::arithmetic::div_mod::lemma_small_mod(s as nat, count as nat);
}

proof fn lemma_up_iter_closed(s: int, count: int, k: nat)
    requires
        0 <= s < count,
    ensures
        up_iter(s, count, k) == (s + k) % count,
    decreases k,
{
    if k > 0 {
        lemma_up_iter_closed(s, count, (k - 1) as nat);
        vstd::arithmetic::div_mod::lemma_add_mod_noop_right(1, s + k - 1, count);
    } else {
        vstd::arithmetic::div_mod::lemma_small_mod(s as nat, count as nat);
    }
}


/// The arpeggiator after `k` steps in the list's playback order.
pub open spec fn after_steps(a: Arpeggiator, notes: ArpNotes, k: nat) -> Arpeggiator
    decreases k,
{
    if k == 0 {
        a
    } else {
        after_steps(a, notes, (k - 1) as nat).advanced(notes)
    }
}

/// In `Down` order the arpeggiator walks the list backwards, wrapping: after
/// `k` steps from position `s` it stands at `(s - k) mod count`, so it comes
/// back after `count` steps, meets every listed note once on the way, and a
/// step in `Up` order undoes a step in `Down` order.
pub proof fn lemma_down_reverse_round_robin(a: Arpeggiator, notes: ArpNotes, k: nat, t: int)
    requires
        notes.wf(),
        notes.mode == ArpMode::Down,
        0 < notes.count,
        a.step < notes.count,
        0 <= t < notes.count,
    ensures
        after_steps(a, notes, k).step == (a.step - k) % (notes.count as int),
        after_steps(a, notes, notes.count as nat).step == a.step,
        ({
            let i = (a.step - t) % (notes.count as int);
            0 <= i < notes.count && after_steps(a, notes, i as nat).step == t
        }),
        a.advanced(notes).advanced(ArpNotes { mode: ArpMode::Up, ..notes }).step == a.step,
{
    let c = notes.count as int;
    lemma_down_steps(a, notes, k);
    lemma_down_steps(a, notes, notes.count as nat);
    vstd::arithmetic::div_mod::lemma_sub_mod_noop(a.step as int, c, c);
    vstd::arithmetic::div_mod::lemma_mod_self_0(c);
    vstd::arithmetic::div_mod::lemma_small_mod(a.step as nat, c as nat);
    let i = (a.step - t) % c;
    vstd::arithmetic::div_mod::lemma_mod_bound(a.step - t, c);
    lemma_down_steps(a, notes, i as nat);
    // (s - ((s - t) mod c)) mod c == t
    vstd::arithmetic::div_mod::lemma_sub_mod_noop(a.step as int, a.step - t, c);
    vstd::arithmetic::div_mod::lemma_mod_twice(a.step - t, c);
    vstd::arithmetic::div_mod::lemma_small_mod(t as nat, c as nat);
    // One Down step and one Up step.
    let d = a.advanced(notes);
    assert(d.step == (a.step + c - 1) % c);
    vstd::arithmetic::div_mod::lemma_mod_bound(a.step + c - 1, c);
    vstd::arithmetic::div_mod::lemma_add_mod_noop(a.step + c - 1, 1, c);
    if c > 1 {
        vstd::arithmetic::div_mod::lemma_small_mod(1, c as nat);
    } else {
        vstd::arithmetic::div_mod::lemma_mod_self_0(1);
    }
    vstd::arithmetic::div_mod::lemma_mod_add_multiples_vanish(a.step as int, c);
}

proof fn lemma_down_steps(a: Arpeggiator, notes: ArpNotes, k: nat)
    requires
        notes.wf(),
        notes.mode == ArpMode::Down,
        0 < notes.count,
        a.step < notes.count,
    ensures
        after_steps(a, notes, k).step == (a.step - k) % (notes.count as int),
    decreases k,
{
    let c = notes.count as int;
    if k == 0 {
        vstd::arithmetic::div_mod::lemma_small_mod(a.step as nat, c as nat);
    } else {
        lemma_down_steps(a, notes, (k - 1) as nat);
        let x = a.step - (k - 1);
        vstd::arithmetic::div_mod::lemma_mod_bound(x, c);
        vstd::arithmetic::div_mod::lemma_add_mod_noop(x, c - 1, c);
        vstd::arithmetic::div_mod::lemma_small_mod((c - 1) as nat, c as nat);
        vstd::arithmetic::div_mod::lemma_mod_add_multiples_vanish(x - 1, c);
    }
}


/// In `Up` order the arpeggiator plays the list round-robin: after `k`
/// steps from position `s` it stands at `(s + k) mod count`.
pub proof fn lemma_up_steps_round_robin(a: Arpeggiator, notes: ArpNotes, k: nat)
    requires
        notes.wf(),
        notes.mode == ArpMode::Up,
        0 < notes.count,
        a.step < notes.count,
    ensures
        after_steps(a, notes, k).step == (a.step + k) % (notes.count as int),
        after_steps(a, notes, notes.count as nat).step == a.step,
{
    lemma_up_steps_iter(a, notes, k);
    lemma_up_steps_iter(a, notes, notes.count as nat);
    lemma_up_round_robin(a.step as int, notes.count as int, k);
}

proof fn lemma_up_steps_iter(a: Arpeggiator, notes: ArpNotes, k: nat)
    requires
        notes.wf(),
        notes.mode == ArpMode::Up,
        0 < notes.count,
        a.step < notes.count,
    ensures
        after_steps(a, notes, k).step == up_iter(a.step as int, notes.count as int, k),
    decreases k,
{
    if k > 0 {
        lemma_up_steps_iter(a, notes, (k - 1) as nat);
        lemma_up_round_robin(a.step as int, notes.count as int, (k - 1) as nat);
        vstd::arithmetic::div_mod::lemma_mod_bound(a.step + k - 1, notes.count as int);
    }
}

/// In `UpDown` order, starting on the first note going up, the arpeggiator
/// follows the bounce of [`lemma_updown_bounces`]: 0, 1, …, count - 1,
/// count - 2, …, 0, 1, …
pub proof fn lemma_updown_steps_bounce(a: Arpeggiator, notes: ArpNotes, k: nat)
    requires
        notes.wf(),
        notes.mode == ArpMode::UpDown,
        2 <= notes.count,
        a.step == 0,
        a.direction == 0,
    ensures
        after_steps(a, notes, k).step == bounce(notes.count, k).0,
        after_steps(a, notes, k).direction == bounce(notes.count, k).1,
    decreases k,
{
    lemma_updown_steps_iter(a, notes, k);
    lemma_updown_bounces(notes.count, k);
}

proof fn lemma_updown_steps_iter(a: Arpeggiator, notes: ArpNotes, k: nat)
    requires
        notes.wf(),
        notes.mode == ArpMode::UpDown,
        2 <= notes.count,
        a.step == 0,
        a.direction == 0,
    ensures
        (after_steps(a, notes, k).step, after_steps(a, notes, k).direction) == updown_iter(notes.count, k),
    decreases k,
{
    if k > 0 {
        lemma_updown_steps_iter(a, notes, (k - 1) as nat);
    }
}

/// `k` steps of `UpDown` order starting at the bottom going up.
pub open spec fn updown_iter(count: u8, k: nat) -> (u8, u8)
    decreases k,
{
    if k == 0 {
        (0, 0)
    } else {
        let prev = updown_iter(count, (k - 1) as nat);
        updown_next(prev.0, prev.1, count)
    }
}

/// Position and direction of the `UpDown` bounce after `k` steps: a triangle
/// wave over `0 ..= count - 1` with period `2 * (count - 1)`.
pub open spec fn bounce(count: u8, k: nat) -> (u8, u8) {
    let m: int = 2 * (count - 1);
    let p = (k as int) % m;
    if p < count {
        (p as u8, if p == 0 && k > 0 {
            1u8
        } else {
            0u8
        })
    } else {
        ((m - p) as u8, 1u8)
    }
}

/// In `UpDown` order the arpeggiator climbs from the first note to the last,
/// then walks back down, bouncing at both ends without playing an end twice:
/// with three notes the positions run 0, 1, 2, 1, 0, 1, 2, ...
pub proof fn lemma_updown_bounces(count: u8, k: nat)
    requires
        2 <= count <= ARP_MAX_NOTES,
    ensures
        updown_iter(count, k) == bounce(count, k),
        updown_iter(count, k).0 < count,
    decreases k,
{
    let m: int = 2 * (count - 1);
    if k > 0 {
        lemma_updown_bounces(count, (k - 1) as nat);
        let q = (k - 1) as int % m;
        let p = (k as int) % m;
        vstd::arithmetic::div_mod::lemma_add_mod_noop_right(1, k - 1, m);
        assert(0 <= q < m);
        if q + 1 == m {
            vstd::arithmetic::div_mod::lemma_mod_self_0(m);
            assert(p == 0);
        } else {
            vstd::arithmetic::div_mod::lemma_small_mod((q + 1) as nat, m as nat);
            assert(p == q + 1);
        }
    } else {
        vstd::arithmetic::div_mod::lemma_small_mod(0, m as nat);
    }
}

} // verus!
