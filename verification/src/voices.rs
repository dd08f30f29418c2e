//! Polyphonic voice allocation for one synthesis channel.
//!
//! Each of the `POLYPHONY` voice slots remembers which note it plays and when
//! it was last assigned.  A new note goes, in order of preference, to the slot
//! that already plays that note, to the first idle voice, or to the voice that
//! was assigned longest ago.

use crate::params::MidiNote;
use vstd::prelude::*;

verus! {

/// Number of simultaneous voices per synthesis channel.
pub const POLYPHONY: usize = 4;

/// Bookkeeping for one voice: its note (if held) and its assignment age.
#[derive(Debug, Clone, Copy, PartialEq, Eq, Structural)]
pub struct VoiceSlot {
    /// Note the voice plays, `None` once released.
    pub note: Option<MidiNote>,
    /// Value of the channel's age counter when the slot was last assigned.
    pub age: u64,
}

impl VoiceSlot {
    /// A slot that holds no note and was never assigned.
    pub fn empty() -> (r: Self)
        ensures
            r.note.is_none(),
            r.age == 0,
    {
        VoiceSlot { note: None, age: 0 }
    }
}

/// Slot bookkeeping for one channel's voice pool.
pub struct VoiceAllocator {
    /// One entry per voice.
    pub slots: [VoiceSlot; POLYPHONY],
    /// Grows by one on every assignment (saturating).
    pub age_counter: u64,
}

/// Slot `i` holds `midi`.
pub open spec fn holds(slots: Seq<VoiceSlot>, i: int, midi: MidiNote) -> bool {
    slots[i].note == Some(midi)
}

/// Slot `i` is free: its voice is silent and it holds no note.
pub open spec fn idle(slots: Seq<VoiceSlot>, busy: Seq<bool>, i: int) -> bool {
    !busy[i] && slots[i].note.is_none()
}

/// The slot a new `midi` note goes to.
///
/// The first slot already holding `midi`; else the first idle slot; else the
/// first slot among those with the smallest age.
pub open spec fn chosen_slot(slots: Seq<VoiceSlot>, busy: Seq<bool>, midi: MidiNote, r: int) -> bool {
    &&& 0 <= r < POLYPHONY
    &&& if exists|i: int| 0 <= i < POLYPHONY && #[trigger] holds(slots, i, midi) {
        holds(slots, r, midi) && forall|j: int| 0 <= j < r ==> !#[trigger] holds(slots, j, midi)
    } else if exists|i: int| 0 <= i < POLYPHONY && #[trigger] idle(slots, busy, i) {
        idle(slots, busy, r) && forall|j: int| 0 <= j < r ==> !#[trigger] idle(slots, busy, j)
    } else {
        &&& forall|j: int| 0 <= j < POLYPHONY ==> slots[r].age <= #[trigger] slots[j].age
        &&& forall|j: int| 0 <= j < r ==> slots[r].age < #[trigger] slots[j].age
    }
}

/// No note is held by two slots, and no slot is younger than the counter.
pub open spec fn allocator_wf(slots: Seq<VoiceSlot>, age_counter: u64) -> bool {
    &&& slots.len() == POLYPHONY
    &&& forall|i: int, j: int|
        0 <= i < POLYPHONY && 0 <= j < POLYPHONY && i != j && (#[trigger] slots[i]).note.is_some()
            ==> slots[i].note != (#[trigger] slots[j]).note
    &&& forall|i: int| 0 <= i < POLYPHONY ==> (#[trigger] slots[i]).age <= age_counter
}

fn slot_holds(slot: &VoiceSlot, midi: MidiNote) -> (r: bool)
    ensures
        r == (slot.note == Some(midi)),
{
    match slot.note {
        Some(n) => n == midi,
        None => false,
    }
}

impl VoiceAllocator {
    /// The slots as a sequence.
    pub open spec fn slots_view(&self) -> Seq<VoiceSlot> {
        self.slots@
    }

    /// Well-formedness: see [`allocator_wf`].
    pub open spec fn wf(&self) -> bool {
        allocator_wf(self.slots@, self.age_counter)
    }

    /// A pool with every slot free.
    pub fn new() -> (r: Self)
        ensures
            r.wf(),
            r.age_counter == 0,
            forall|i: int| 0 <= i < POLYPHONY ==> (#[trigger] r.slots@[i]) == (VoiceSlot {
                note: None,
                age: 0,
            }),
    {
        VoiceAllocator {
            slots: [VoiceSlot::empty(), VoiceSlot::empty(), VoiceSlot::empty(), VoiceSlot::empty()],
            age_counter: 0,
        }
    }

    /// First slot that holds `midi`, if any.
    pub fn find_note(&self, midi: MidiNote) -> (r: Option<usize>)
        ensures
            match r {
                Some(i) => i < POLYPHONY && holds(self.slots@, i as int, midi) && forall|j: int|
                    0 <= j < i ==> !#[trigger] holds(self.slots@, j, midi),
                None => forall|j: int| 0 <= j < POLYPHONY ==> !#[trigger] holds(self.slots@, j, midi),
            },
    {
        let mut i: usize = 0;
        while i < POLYPHONY
            invariant
                i <= POLYPHONY,
                forall|j: int| 0 <= j < i ==> !#[trigger] holds(self.slots@, j, midi),
            decreases POLYPHONY - i,
        {
            if slot_holds(&self.slots[i], midi) {
                return Some(i);
            }
            i = i + 1;
        }
        None
    }

    /// Choose the slot for a new `midi` note.
    ///
    /// `busy[i]` tells whether voice `i` is still sounding (active or in an
    /// envelope stage other than idle).
    pub fn allocate_voice_index(&self, midi: MidiNote, busy: &[bool; POLYPHONY]) -> (r: usize)
        ensures
            chosen_slot(self.slots@, busy@, midi, r as int),
    {
        match self.find_note(midi) {
            Some(i) => {
                return i;
            },
            None => {},
        }
        let mut i: usize = 0;
        while i < POLYPHONY
            invariant
                i <= POLYPHONY,
                forall|j: int| 0 <= j < POLYPHONY ==> !#[trigger] holds(self.slots@, j, midi),
                forall|j: int| 0 <= j < i ==> !#[trigger] idle(self.slots@, busy@, j),
            decreases POLYPHONY - i,
        {
            if !busy[i] && self.slots[i].note.is_none() {
                assert(idle(self.slots@, busy@, i as int));
                return i;
            }
            i = i + 1;
        }
        let mut best: usize = 0;
        let mut k: usize = 1;
        while k < POLYPHONY
            invariant
                1 <= k <= POLYPHONY,
                best < k,
                forall|j: int| 0 <= j < POLYPHONY ==> !#[trigger] holds(self.slots@, j, midi),
                forall|j: int| 0 <= j < POLYPHONY ==> !#[trigger] idle(self.slots@, busy@, j),
                forall|j: int| 0 <= j < k ==> self.slots@[best as int].age <= #[trigger] self.slots@[j].age,
                forall|j: int| 0 <= j < best ==> self.slots@[best as int].age < #[trigger] self.slots@[j].age,
            decreases POLYPHONY - k,
        {
            if self.slots[k].age < self.slots[best].age {
                best = k;
            }
            k = k + 1;
        }
        best
    }

    /// Assign `midi` to a slot and return the index of the voice to start.
    pub fn note_on(&mut self, midi: MidiNote, busy: &[bool; POLYPHONY]) -> (r: usize)
        requires
            old(self).wf(),
        ensures
            final(self).wf(),
            chosen_slot(old(self).slots@, busy@, midi, r as int),
            final(self).age_counter == (if old(self).age_counter == u64::MAX {
                u64::MAX
            } else {
                (old(self).age_counter + 1) as u64
            }),
            final(self).slots@ == old(self).slots@.update(
                r as int,
                (VoiceSlot { note: Some(midi), age: final(self).age_counter }),
            ),
    {
        let idx = self.allocate_voice_index(midi, busy);
        self.age_counter = self.age_counter.saturating_add(1);
        let slot = VoiceSlot { note: Some(midi), age: self.age_counter };
        proof {
            let s = old(self).slots@;
            if exists|i: int| 0 <= i < POLYPHONY && #[trigger] holds(s, i, midi) {
            } else {
                assert forall|j: int| 0 <= j < POLYPHONY implies !#[trigger] holds(s, j, midi) by {}
            }
        }
        self.slots[idx] = slot;
        proof {
            let s = old(self).slots@;
            let t = self.slots@;
            assert forall|i: int, j: int|
                0 <= i < POLYPHONY && 0 <= j < POLYPHONY && i != j && (#[trigger] t[i]).note.is_some()
                    implies t[i].note != (#[trigger] t[j]).note by {
                if i == idx as int {
                    if !(exists|k: int| 0 <= k < POLYPHONY && #[trigger] holds(s, k, midi)) {
                        assert(!holds(s, j, midi));
                    } else {
                        let k = choose|k: int| 0 <= k < POLYPHONY && #[trigger] holds(s, k, midi);
                        assert(holds(s, idx as int, midi));
                        if holds(s, j, midi) {
                            assert(s[idx as int].note == s[j].note);
                        }
                    }
                } else if j == idx as int {
                    if !(exists|k: int| 0 <= k < POLYPHONY && #[trigger] holds(s, k, midi)) {
                        assert(!holds(s, i, midi));
                    } else {
                        assert(holds(s, idx as int, midi));
                        if holds(s, i, midi) {
                            assert(s[idx as int].note == s[i].note);
                        }
                    }
                }
            }
        }
        idx
    }

    /// Release `midi`: free the first slot holding it and return that voice's
    /// index, or `None` when no slot holds it.
    pub fn note_off(&mut self, midi: MidiNote) -> (r: Option<usize>)
        requires
            old(self).wf(),
        ensures
            final(self).wf(),
            final(self).age_counter == old(self).age_counter,
            match r {
                Some(i) => i < POLYPHONY && holds(old(self).slots@, i as int, midi) && (forall|j: int|
                    0 <= j < i ==> !#[trigger] holds(old(self).slots@, j, midi)) && final(self).slots@
                    == old(self).slots@.update(
                    i as int,
                    (VoiceSlot { note: None, age: old(self).slots@[i as int].age }),
                ),
                None => (forall|j: int|
                    0 <= j < POLYPHONY ==> !#[trigger] holds(old(self).slots@, j, midi))
                    && final(self).slots@ == old(self).slots@,
            },
            forall|j: int| 0 <= j < POLYPHONY ==> !#[trigger] holds(final(self).slots@, j, midi),
    {
        match self.find_note(midi) {
            Some(i) => {
                let age = self.slots[i].age;
                self.slots[i] = VoiceSlot { note: None, age };
                proof {
                    let s = old(self).slots@;
                    let t = self.slots@;
                    assert forall|j: int| 0 <= j < POLYPHONY implies !#[trigger] holds(t, j, midi) by {
                        if j != i as int && holds(t, j, midi) {
                            assert(s[j].note == s[i as int].note);
                        }
                    }
                }
                Some(i)
            },
            None => None,
        }
    }

    /// Free every slot and reset the age counter.
    pub fn panic(&mut self)
        ensures
            final(self).wf(),
            final(self).age_counter == 0,
            forall|i: int| 0 <= i < POLYPHONY ==> (#[trigger] final(self).slots@[i]) == (VoiceSlot {
                note: None,
                age: 0,
            }),
    {
        *self = VoiceAllocator::new();
    }
}

/// Each new note lands in exactly one slot: after `note_on`, the slot it
/// returned is the only one that holds the note, and it carries the newest age.
pub proof fn lemma_note_on_unique(
    before: Seq<VoiceSlot>,
    after: Seq<VoiceSlot>,
    counter: u64,
    midi: MidiNote,
    r: int,
)
    requires
        0 <= r < POLYPHONY,
        before.len() == POLYPHONY,
        allocator_wf(after, counter),
        after == before.update(r, (VoiceSlot { note: Some(midi), age: counter })),
    ensures
        forall|j: int| 0 <= j < POLYPHONY ==> (#[trigger] holds(after, j, midi) <==> j == r),
        forall|j: int| 0 <= j < POLYPHONY ==> (#[trigger] after[j]).age <= after[r].age,
{
    assert forall|j: int| 0 <= j < POLYPHONY implies (#[trigger] holds(after, j, midi) <==> j == r) by {
        if j != r && holds(after, j, midi) {
            assert(after[r].note.is_some());
            assert(after[r].note != after[j].note);
        }
    }
    assert forall|j: int| 0 <= j < POLYPHONY implies (#[trigger] after[j]).age <= after[r].age by {}
}

} // verus!
