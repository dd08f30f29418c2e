//! Step sequencing: which note and drum events fire at each step.
//!
//! The playback thread keeps time; at every step deadline it calls
//! [`fire_step`] and sends the returned events to the audio engine in order,
//! then moves to [`next_step`].

use super::{DrumStep, Pattern, STEPS, SYNTH_TRACKS};
use crate::params::{ChannelNo, DrumHit, MidiNote};
use vstd::prelude::*;

verus! {

/// An event the sequencer sends to the audio engine.
#[derive(Debug, Clone, Copy, PartialEq, Eq, Structural)]
pub enum PlayerEvent {
    /// Release a note on a synth channel.
    NoteOff(ChannelNo, MidiNote),
    /// Start a note on a synth channel.
    NoteOn(ChannelNo, MidiNote),
    /// Trigger a drum hit.
    Drum(DrumHit),
}

/// Releases for the notes sounding on channels `0..k`, in channel order.
pub open spec fn releases(active: Seq<Option<MidiNote>>, k: nat) -> Seq<PlayerEvent>
    decreases k,
{
    if k == 0 {
        Seq::empty()
    } else {
        let prev = releases(active, (k - 1) as nat);
        match active[k - 1] {
            Some(n) => prev.push(PlayerEvent::NoteOff(ChannelNo((k - 1) as u8), n)),
            None => prev,
        }
    }
}

/// Starts for the notes of `row` on tracks `0..k`, in track order.
pub open spec fn triggers(pattern: Pattern, row: int, k: nat) -> Seq<PlayerEvent>
    decreases k,
{
    if k == 0 {
        Seq::empty()
    } else {
        let prev = triggers(pattern, row, (k - 1) as nat);
        match pattern.step_at(k - 1, row).note {
            Some(n) => prev.push(PlayerEvent::NoteOn(ChannelNo((k - 1) as u8), n)),
            None => prev,
        }
    }
}

/// Drum hits of one row: kick, then closed hi-hat, then open hi-hat.
pub open spec fn drum_events(d: DrumStep) -> Seq<PlayerEvent> {
    let a = if d.kick {
        seq![PlayerEvent::Drum(DrumHit::Kick)]
    } else {
        Seq::empty()
    };
    let b = if d.hihat_closed {
        seq![PlayerEvent::Drum(DrumHit::HiHatClosed)]
    } else {
        Seq::empty()
    };
    let c = if d.hihat_open {
        seq![PlayerEvent::Drum(DrumHit::HiHatOpen)]
    } else {
        Seq::empty()
    };
    a + b + c
}

/// Release every sounding note, channel by channel.
pub fn note_off_all(active: &mut [Option<MidiNote>; SYNTH_TRACKS]) -> (r: Vec<PlayerEvent>)
    ensures
        r@ == releases(old(active)@, SYNTH_TRACKS as nat),
        forall|i: int| 0 <= i < SYNTH_TRACKS ==> (#[trigger] final(active)@[i]).is_none(),
{
    let ghost before = active@;
    let mut out: Vec<PlayerEvent> = Vec::new();
    let mut ch: usize = 0;
    while ch < SYNTH_TRACKS
        invariant
            ch <= SYNTH_TRACKS,
            before.len() == SYNTH_TRACKS,
            out@ == releases(before, ch as nat),
            forall|i: int| 0 <= i < ch ==> (#[trigger] active@[i]).is_none(),
            forall|i: int| ch <= i < SYNTH_TRACKS ==> #[trigger] active@[i] == before[i],
        decreases SYNTH_TRACKS - ch,
    {
        match active[ch] {
            Some(n) => {
                out.push(PlayerEvent::NoteOff(ChannelNo(ch as u8), n));
                active[ch] = None;
            },
            None => {},
        }
        ch = ch + 1;
    }
    out
}

/// Events of one step: release what still sounds, start the notes of `row`
/// on every synth track, then trigger the row's drum hits.  Afterwards
/// `active` holds the notes just started.
pub fn fire_step(pattern: &Pattern, row: usize, active: &mut [Option<MidiNote>; SYNTH_TRACKS]) -> (r:
    Vec<PlayerEvent>)
    requires
        row < STEPS,
    ensures
        r@ == releases(old(active)@, SYNTH_TRACKS as nat) + triggers(
            *pattern,
            row as int,
            SYNTH_TRACKS as nat,
        ) + drum_events(pattern.drums[row as int]),
        forall|i: int|
            0 <= i < SYNTH_TRACKS ==> #[trigger] final(active)@[i] == pattern.step_at(i, row as int).note,
{
    let mut out = note_off_all(active);
    let ghost released = out@;
    let mut track: usize = 0;
    while track < SYNTH_TRACKS
        invariant
            track <= SYNTH_TRACKS,
            row < STEPS,
            out@ == released + triggers(*pattern, row as int, track as nat),
            forall|i: int| 0 <= i < track ==> #[trigger] active@[i] == pattern.step_at(i, row as int).note,
            forall|i: int| track <= i < SYNTH_TRACKS ==> (#[trigger] active@[i]).is_none(),
        decreases SYNTH_TRACKS - track,
    {
        let col = &pattern.synth[track];
        match col[row].note {
            Some(n) => {
                out.push(PlayerEvent::NoteOn(ChannelNo(track as u8), n));
                active[track] = Some(n);
            },
            None => {},
        }
        proof {
            assert(pattern.step_at(track as int, row as int) == col@[row as int]);
        }
        track = track + 1;
    }
    let ghost started = out@;
    let drum = pattern.drums[row];
    if drum.kick {
        out.push(PlayerEvent::Drum(DrumHit::Kick));
    }
    if drum.hihat_closed {
        out.push(PlayerEvent::Drum(DrumHit::HiHatClosed));
    }
    if drum.hihat_open {
        out.push(PlayerEvent::Drum(DrumHit::HiHatOpen));
    }
    proof {
        assert(out@ =~= started + drum_events(drum));
    }
    out
}

/// The row after `row` in a pattern of `len` active rows, wrapping.
pub fn next_step(row: usize, len: usize) -> (r: usize)
    requires
        0 < len <= STEPS,
        row < STEPS,
    ensures
        r == (row + 1) % (len as int),
        r < len,
{
    (row + 1) % len
}

/// Channels whose preset index is in the bank, with that index, in channel
/// order: the preset loads that precede playback.
pub fn patch_loads(track_patches: &[usize; SYNTH_TRACKS], preset_count: usize) -> (r: Vec<
    (ChannelNo, usize),
>)
    ensures
        r@ == Seq::new(SYNTH_TRACKS as nat, |i: int| (ChannelNo(i as u8), track_patches@[i])).filter(
            |p: (ChannelNo, usize)| p.1 < preset_count,
        ),
{
    let ghost all = Seq::new(SYNTH_TRACKS as nat, |i: int| (ChannelNo(i as u8), track_patches@[i]));
    let ghost keep = |p: (ChannelNo, usize)| p.1 < preset_count;
    let mut out: Vec<(ChannelNo, usize)> = Vec::new();
    let mut ch: usize = 0;
    while ch < SYNTH_TRACKS
        invariant
            ch <= SYNTH_TRACKS,
            all == Seq::new(SYNTH_TRACKS as nat, |i: int| (ChannelNo(i as u8), track_patches@[i])),
            keep == (|p: (ChannelNo, usize)| p.1 < preset_count),
            out@ == all.take(ch as int).filter(keep),
        decreases SYNTH_TRACKS - ch,
    {
        proof {
            all.take(ch as int).lemma_filter_push(all[ch as int], keep);
            assert(all.take(ch as int + 1) == all.take(ch as int).push(all[ch as int]));
        }
        let idx = track_patches[ch];
        if idx < preset_count {
            out.push((ChannelNo(ch as u8), idx));
        }
        ch = ch + 1;
    }
    proof {
        assert(all.take(SYNTH_TRACKS as int) == all);
    }
    out
}

/// Playback position of the sequencer thread.
#[derive(Debug, Clone, Copy)]
pub struct Sequencer {
    /// `true` while the sequencer is running.
    pub playing: bool,
    /// Row that fires at the next step deadline.
    pub step: usize,
    /// Note currently sounding on each synth channel.
    pub active: [Option<MidiNote>; SYNTH_TRACKS],
}

impl Sequencer {
    /// The next row to fire lies in the grid.
    pub open spec fn wf(self) -> bool {
        self.step < STEPS
    }

    /// Stopped, at row 0, nothing sounding.
    pub fn new() -> (r: Self)
        ensures
            r.wf(),
            !r.playing,
            r.step == 0,
            forall|i: int| 0 <= i < SYNTH_TRACKS ==> (#[trigger] r.active@[i]).is_none(),
    {
        Sequencer { playing: false, step: 0, active: [None, None, None, None] }
    }

    /// Start playback from row 0: release whatever still sounds.
    pub fn start(&mut self) -> (r: Vec<PlayerEvent>)
        ensures
            final(self).wf(),
            final(self).playing,
            final(self).step == 0,
            r@ == releases(old(self).active@, SYNTH_TRACKS as nat),
            forall|i: int| 0 <= i < SYNTH_TRACKS ==> (#[trigger] final(self).active@[i]).is_none(),
    {
        let events = note_off_all(&mut self.active);
        self.playing = true;
        self.step = 0;
        events
    }

    /// Stop playback: release whatever still sounds.
    pub fn stop(&mut self) -> (r: Vec<PlayerEvent>)
        ensures
            !final(self).playing,
            final(self).step == old(self).step,
            r@ == releases(old(self).active@, SYNTH_TRACKS as nat),
            forall|i: int| 0 <= i < SYNTH_TRACKS ==> (#[trigger] final(self).active@[i]).is_none(),
    {
        let events = note_off_all(&mut self.active);
        self.playing = false;
        events
    }

    /// A step deadline passed: fire the current row and move to the next
    /// active row.  Returns the row that fired and its events.
    pub fn advance(&mut self, pattern: &Pattern) -> (r: (usize, Vec<PlayerEvent>))
        requires
            old(self).wf(),
            pattern.wf(),
        ensures
            final(self).wf(),
            final(self).playing == old(self).playing,
            r.0 == old(self).step,
            r.1@ == releases(old(self).active@, SYNTH_TRACKS as nat) + triggers(
                *pattern,
                old(self).step as int,
                SYNTH_TRACKS as nat,
            ) + drum_events(pattern.drums[old(self).step as int]),
            forall|i: int|
                0 <= i < SYNTH_TRACKS ==> #[trigger] final(self).active@[i] == pattern.step_at(
                    i,
                    old(self).step as int,
                ).note,
            final(self).step == (old(self).step + 1) % (pattern.len as int),
            final(self).step < pattern.len,
    {
        let fired = self.step;
        let events = fire_step(pattern, fired, &mut self.active);
        self.step = next_step(fired, pattern.len);
        (fired, events)
    }
}

/// Playback from any row visits every active row in order: after `k` steps
/// from row 0 the sequencer stands at row `k mod len`.
pub open spec fn rows_after(len: int, k: nat) -> int
    decreases k,
{
    if k == 0 {
        0
    } else {
        (rows_after(len, (k - 1) as nat) + 1) % len
    }
}

/// `next_step` walks the active rows cyclically from row 0.
pub proof fn lemma_rows_cycle(len: int, k: nat)
    requires
        0 < len,
    ensures
        rows_after(len, k) == (k as int) % len,
        0 <= rows_after(len, k) < len,
    decreases k,
{
    if k > 0 {
        lemma_rows_cycle(len, (k - 1) as nat);
        vstd::arithmetic::div_mod::lemma_add_mod_noop_right(1, k - 1, len);
    } else {
        vstd::arithmetic::div_mod::lemma_small_mod(0, len as nat);
    }
}

/// The drum flag of a row that a drum hit answers to.
pub open spec fn flag_of(d: DrumStep, hit: DrumHit) -> bool {
    match hit {
        DrumHit::Kick => d.kick,
        DrumHit::HiHatClosed => d.hihat_closed,
        DrumHit::HiHatOpen => d.hihat_open,
    }
}

proof fn lemma_releases_no_drums(active: Seq<Option<MidiNote>>, k: nat, hit: DrumHit)
    ensures
        !releases(active, k).contains(PlayerEvent::Drum(hit)),
    decreases k,
{
    if k > 0 {
        lemma_releases_no_drums(active, (k - 1) as nat, hit);
        let prev = releases(active, (k - 1) as nat);
        if let Some(n) = active[k - 1] {
            let e = PlayerEvent::NoteOff(ChannelNo((k - 1) as u8), n);
            assert forall|j: int| 0 <= j < prev.len() + 1 implies prev.push(e)[j] != PlayerEvent::Drum(
                hit,
            ) by {
                if j < prev.len() {
                    assert(prev.push(e)[j] == prev[j]);
                }
            }
        }
    }
}

proof fn lemma_triggers_no_drums(pattern: Pattern, row: int, k: nat, hit: DrumHit)
    ensures
        !triggers(pattern, row, k).contains(PlayerEvent::Drum(hit)),
    decreases k,
{
    if k > 0 {
        lemma_triggers_no_drums(pattern, row, (k - 1) as nat, hit);
        let prev = triggers(pattern, row, (k - 1) as nat);
        if let Some(n) = pattern.step_at(k - 1, row).note {
            let e = PlayerEvent::NoteOn(ChannelNo((k - 1) as u8), n);
            assert forall|j: int| 0 <= j < prev.len() + 1 implies prev.push(e)[j] != PlayerEvent::Drum(
                hit,
            ) by {
                if j < prev.len() {
                    assert(prev.push(e)[j] == prev[j]);
                }
            }
        }
    }
}

/// Each drum flag of a row maps to its own hit: the events `fire_step` sends
/// for a row hold a kick exactly when the row's kick is set, a closed hi-hat
/// exactly when its closed hi-hat is set, and an open hi-hat exactly when
/// its open hi-hat is set; no hit comes twice, and the number of drum hits is
/// the number of flags set.
pub proof fn lemma_row_drum_hits(active: Seq<Option<MidiNote>>, pattern: Pattern, row: int, hit: DrumHit)
    requires
        0 <= row < STEPS,
    ensures
        ({
            let d = pattern.drums[row];
            let ev = releases(active, SYNTH_TRACKS as nat) + triggers(pattern, row, SYNTH_TRACKS as nat)
                + drum_events(d);
            &&& ev.contains(PlayerEvent::Drum(hit)) <==> flag_of(d, hit)
            &&& drum_events(d).no_duplicates()
            &&& drum_events(d).len() == (if d.kick { 1int } else { 0 }) + (if d.hihat_closed {
                1int
            } else {
                0
            }) + (if d.hihat_open { 1int } else { 0 })
        }),
{
    let d = pattern.drums[row];
    let rel = releases(active, SYNTH_TRACKS as nat);
    let tri = triggers(pattern, row, SYNTH_TRACKS as nat);
    let k = PlayerEvent::Drum(DrumHit::Kick);
    let c = PlayerEvent::Drum(DrumHit::HiHatClosed);
    let o = PlayerEvent::Drum(DrumHit::HiHatOpen);
    let de = drum_events(d);
    let x: Seq<PlayerEvent> = if d.kick { seq![k] } else { Seq::empty() };
    let y: Seq<PlayerEvent> = if d.hihat_closed { seq![c] } else { Seq::empty() };
    let z: Seq<PlayerEvent> = if d.hihat_open { seq![o] } else { Seq::empty() };
    assert(de == x + y + z);
    // The drum events written out for each combination of flags.
    if d.kick && d.hihat_closed && d.hihat_open {
        assert(de =~= seq![k, c, o]);
    } else if d.kick && d.hihat_closed {
        assert(de =~= seq![k, c]);
    } else if d.kick && d.hihat_open {
        assert(de =~= seq![k, o]);
    } else if d.hihat_closed && d.hihat_open {
        assert(de =~= seq![c, o]);
    } else if d.kick {
        assert(de =~= seq![k]);
    } else if d.hihat_closed {
        assert(de =~= seq![c]);
    } else if d.hihat_open {
        assert(de =~= seq![o]);
    } else {
        assert(de =~= Seq::<PlayerEvent>::empty());
    }
    lemma_releases_no_drums(active, SYNTH_TRACKS as nat, hit);
    lemma_triggers_no_drums(pattern, row, SYNTH_TRACKS as nat, hit);
    let ev = rel + tri + de;
    let target = PlayerEvent::Drum(hit);
    if ev.contains(target) {
        let j = choose|j: int| 0 <= j < ev.len() && ev[j] == target;
        if j < rel.len() {
            assert(rel[j] == target);
        } else if j < rel.len() + tri.len() {
            assert(tri[j - rel.len()] == target);
        } else {
            assert(de[j - rel.len() - tri.len()] == target);
        }
    }
    if flag_of(d, hit) {
        let i: int = match hit {
            DrumHit::Kick => 0,
            DrumHit::HiHatClosed => x.len() as int,
            DrumHit::HiHatOpen => (x.len() + y.len()) as int,
        };
        assert(de[i] == target);
        assert(ev[rel.len() + tri.len() + i] == target);
    }
}

} // verus!
