//! Note stack for the monophonic voice: last-note priority.
//!
//! The newest pressed note wins; releasing it returns to the previous note if
//! that one is still held.  A note is held at most once.

use vstd::prelude::*;

verus! {

/// The predicate "is not `n`", used to drop a note from the stack.
pub open spec fn not_note(n: u8) -> spec_fn(u8) -> bool {
    |x: u8| x != n
}

/// `s` with every occurrence of `n` removed, order kept.
pub open spec fn without(s: Seq<u8>, n: u8) -> Seq<u8> {
    s.filter(not_note(n))
}

/// The last element of `s`, if any.
pub open spec fn last_of(s: Seq<u8>) -> Option<u8> {
    if s.len() == 0 {
        None
    } else {
        Some(s.last())
    }
}

/// Held keys in press order, the newest last.
pub struct NoteStack {
    notes: Vec<u8>,
}

impl View for NoteStack {
    type V = Seq<u8>;

    closed spec fn view(&self) -> Seq<u8> {
        self.notes@
    }
}

/// Removing every `n` from a sequence without duplicates leaves a sequence
/// without duplicates that does not hold `n`, and keeps every other element.
pub proof fn lemma_without(s: Seq<u8>, n: u8)
    ensures
        !without(s, n).contains(n),
        s.no_duplicates() ==> without(s, n).no_duplicates(),
        forall|x: u8| x != n ==> (without(s, n).contains(x) <==> s.contains(x)),
        !s.contains(n) ==> without(s, n) == s,
    decreases s.len(),
{
    reveal(Seq::filter);
    if s.len() > 0 {
        let init = s.drop_last();
        lemma_without(init, n);
        assert(s == init.push(s.last()));
        let w0 = without(init, n);
        assert(without(s, n) == if s.last() != n {
            w0.push(s.last())
        } else {
            w0
        });
        assert forall|x: u8| x != n implies (without(s, n).contains(x) <==> s.contains(x)) by {
            if s.contains(x) {
                let i = choose|i: int| 0 <= i < s.len() && s[i] == x;
                if i < s.len() - 1 {
                    assert(init[i] == x);
                    assert(init.contains(x));
                    assert(w0.contains(x));
                    let k = choose|k: int| 0 <= k < w0.len() && w0[k] == x;
                    if s.last() != n {
                        assert(w0.push(s.last())[k] == x);
                    }
                } else {
                    assert(without(s, n)[without(s, n).len() - 1] == x);
                }
            }
            if without(s, n).contains(x) {
                let k = choose|k: int| 0 <= k < without(s, n).len() && without(s, n)[k] == x;
                if k < w0.len() {
                    assert(w0[k] == x);
                    assert(w0.contains(x));
                    assert(init.contains(x));
                    let j = choose|j: int| 0 <= j < init.len() && init[j] == x;
                    assert(s[j] == x);
                } else {
                    assert(x == s.last());
                    assert(s[s.len() - 1] == x);
                }
            }
        }
        if s.no_duplicates() {
            assert(init.no_duplicates()) by {
                assert forall|i: int, j: int|
                    0 <= i < init.len() && 0 <= j < init.len() && i != j implies init[i]
                    != init[j] by {
                    assert(s[i] == init[i] && s[j] == init[j]);
                }
            }
            if s.last() != n {
                assert(!init.contains(s.last())) by {
                    if init.contains(s.last()) {
                        let k = choose|k: int| 0 <= k < init.len() && init[k] == s.last();
                        assert(s[k] == s[s.len() - 1]);
                    }
                }
                assert(!without(init, n).contains(s.last()));
                let w = without(init, n);
                assert(without(s, n) == w.push(s.last()));
                assert forall|i: int, j: int|
                    0 <= i < w.len() + 1 && 0 <= j < w.len() + 1 && i != j implies w.push(
                    s.last(),
                )[i] != w.push(s.last())[j] by {
                    if i < w.len() && j < w.len() {
                    } else if i == w.len() {
                        assert(w.contains(w[j]));
                    } else {
                        assert(w.contains(w[i]));
                    }
                }
            }
        }
        if !s.contains(n) {
            assert(!init.contains(n)) by {
                if init.contains(n) {
                    let k = choose|k: int| 0 <= k < init.len() && init[k] == n;
                    assert(s[k] == n);
                }
            }
            assert(s[s.len() - 1] == s.last());
        }
    } else {
        assert(without(s, n) == s);
    }
}

/// Pressing a note that is not held and then releasing it gives back the
/// stack as it was: a release returns to the previous note.
pub proof fn lemma_press_release_restores(s: Seq<u8>, n: u8)
    requires
        !s.contains(n),
    ensures
        without(without(s, n).push(n), n) == s,
        last_of(without(without(s, n).push(n), n)) == last_of(s),
{
    lemma_without(s, n);
    without(s, n).lemma_filter_push(n, not_note(n));
}

/// Copy of `v` without any occurrence of `n`.
fn remove_all(v: &Vec<u8>, n: u8) -> (r: Vec<u8>)
    ensures
        r@ == without(v@, n),
{
    let mut r: Vec<u8> = Vec::new();
    let mut i: usize = 0;
    while i < v.len()
        invariant
            i <= v.len(),
            r@ == without(v@.take(i as int), n),
        decreases v.len() - i,
    {
        proof {
            v@.take(i as int).lemma_filter_push(v@[i as int], not_note(n));
            assert(v@.take(i as int + 1) == v@.take(i as int).push(v@[i as int]));
        }
        if v[i] != n {
            r.push(v[i]);
        }
        i = i + 1;
    }
    proof {
        assert(v@.take(v.len() as int) == v@);
    }
    r
}

impl NoteStack {
    /// The stack never holds a note twice.
    #[verifier::type_invariant]
    spec fn inv(self) -> bool {
        self.notes@.no_duplicates()
    }

    /// An empty stack.
    pub fn new() -> (r: Self)
        ensures
            r@ == Seq::<u8>::empty(),
            r@.no_duplicates(),
    {
        NoteStack { notes: Vec::new() }
    }

    /// Press a key (add to stack, promote to top).
    pub fn press(&mut self, note: u8)
        ensures
            final(self)@ == without(old(self)@, note).push(note),
            final(self)@.no_duplicates(),
    {
        proof {
            use_type_invariant(&*self);
            lemma_without(self.notes@, note);
        }
        let mut kept = remove_all(&self.notes, note);
        kept.push(note);
        proof {
            let w = without(old(self)@, note);
            assert forall|i: int, j: int|
                0 <= i < kept@.len() && 0 <= j < kept@.len() && i != j implies kept@[i]
                != kept@[j] by {
                if i < w.len() && j < w.len() {
                } else if i == w.len() {
                    assert(w.contains(w[j]));
                } else {
                    assert(w.contains(w[i]));
                }
            }
        }
        self.notes = kept;
    }

    /// Release a key.  Returns the new top note (if any still held).
    pub fn release(&mut self, note: u8) -> (r: Option<u8>)
        ensures
            final(self)@ == without(old(self)@, note),
            final(self)@.no_duplicates(),
            r == last_of(final(self)@),
    {
        proof {
            use_type_invariant(&*self);
            lemma_without(self.notes@, note);
        }
        let kept = remove_all(&self.notes, note);
        self.notes = kept;
        self.top()
    }

    /// The most recently pressed note still held.
    pub fn top(&self) -> (r: Option<u8>)
        ensures
            r == last_of(self@),
    {
        let n = self.notes.len();
        if n == 0 {
            None
        } else {
            Some(self.notes[n - 1])
        }
    }

    /// `true` when no key is held.
    pub fn is_empty(&self) -> (r: bool)
        ensures
            r == (self@.len() == 0),
    {
        self.notes.len() == 0
    }

    /// Drop every held key.
    pub fn clear(&mut self)
        ensures
            final(self)@ == Seq::<u8>::empty(),
    {
        self.notes = Vec::new();
    }
}

/// Note messages that reach the monophonic voice.
#[derive(Debug, Clone, Copy, PartialEq, Eq, Structural)]
pub enum NoteEvent {
    /// A key went down.
    On(u8),
    /// A key came up.
    Off(u8),
    /// Silence everything.
    Panic,
}

/// What the monophonic voice is told to do after an event.
#[derive(Debug, Clone, Copy, PartialEq, Eq, Structural)]
pub enum VoiceCommand {
    /// Start (or glide legato to) this note.
    NoteOn(u8),
    /// Enter the release phase.
    NoteOff,
    /// Silence immediately.
    Panic,
}

impl NoteStack {
    /// Update the stack for one note event and decide what the voice does.
    ///
    /// A press plays the pressed note; a release plays the newest note still
    /// held (legato) or releases the voice when none is left; a panic clears
    /// every held key.
    pub fn apply_event(&mut self, event: NoteEvent) -> (r: VoiceCommand)
        ensures
            match event {
                NoteEvent::On(n) => final(self)@ == without(old(self)@, n).push(n) && r
                    == VoiceCommand::NoteOn(n),
                NoteEvent::Off(n) => final(self)@ == without(old(self)@, n) && r == match last_of(
                    final(self)@,
                ) {
                    Some(m) => VoiceCommand::NoteOn(m),
                    None => VoiceCommand::NoteOff,
                },
                NoteEvent::Panic => final(self)@ == Seq::<u8>::empty() && r == VoiceCommand::Panic,
            },
    {
        match event {
            NoteEvent::On(n) => {
                self.press(n);
                VoiceCommand::NoteOn(n)
            },
            NoteEvent::Off(n) => {
                match self.release(n) {
                    Some(m) => VoiceCommand::NoteOn(m),
                    None => VoiceCommand::NoteOff,
                }
            },
            NoteEvent::Panic => {
                self.clear();
                VoiceCommand::Panic
            },
        }
    }
}

} // verus!
