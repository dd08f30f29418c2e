//! Parameter enums and note/channel newtypes shared by the engine and the UIs.
//!
//! Each selector enum cycles through its variants in declaration order; the
//! spec functions `index` / `from_index` give that order, and the proof
//! functions below state that cycling visits every variant and wraps around.

use vstd::prelude::*;

verus! {

// ─── Waveform ────────────────────────────────────────────────────────────────

/// Oscillator waveform shape.
#[derive(Debug, Clone, Copy, PartialEq, Eq, Structural)]
pub enum Waveform {
    /// Classic square/pulse wave; width controlled by `pulse_width`.
    Pulse,
    /// Band-limited sawtooth.
    Sawtooth,
    /// Triangle wave.
    Triangle,
    /// LFSR-based noise clocked at the oscillator period.
    Noise,
    /// 50/50 mix of pulse and sawtooth for a thicker timbre.
    PulseSaw,
}

/// Number of waveform variants.
pub const WAVEFORM_COUNT: usize = 5;

impl Waveform {
    /// Position of the variant in cycling order.
    pub open spec fn index(self) -> int {
        match self {
            Waveform::Pulse => 0,
            Waveform::Sawtooth => 1,
            Waveform::Triangle => 2,
            Waveform::Noise => 3,
            Waveform::PulseSaw => 4,
        }
    }

    /// The variant at position `i` modulo the variant count.
    pub open spec fn from_index(i: int) -> Waveform {
        let k = i % (WAVEFORM_COUNT as int);
        if k == 0 {
            Waveform::Pulse
        } else if k == 1 {
            Waveform::Sawtooth
        } else if k == 2 {
            Waveform::Triangle
        } else if k == 3 {
            Waveform::Noise
        } else {
            Waveform::PulseSaw
        }
    }

    /// The display name of each variant.
    pub open spec fn label(self) -> Seq<char> {
        match self {
            Waveform::Pulse => "Pulse"@,
            Waveform::Sawtooth => "Saw"@,
            Waveform::Triangle => "Tri"@,
            Waveform::Noise => "Noise"@,
            Waveform::PulseSaw => "Pls+Saw"@,
        }
    }

    /// The variant that follows `self`, wrapping after the last one.
    pub open spec fn successor(self) -> Waveform {
        Waveform::from_index(self.index() + 1)
    }

    /// The variant that precedes `self`, wrapping before the first one.
    pub open spec fn predecessor(self) -> Waveform {
        Waveform::from_index(self.index() + WAVEFORM_COUNT - 1)
    }

    /// `k` applications of `successor`.
    pub open spec fn successor_iter(self, k: nat) -> Waveform
        decreases k,
    {
        if k == 0 {
            self
        } else {
            self.successor_iter((k - 1) as nat).successor()
        }
    }

    /// Short display name shown in the UI.
    pub fn name(self) -> (r: &'static str)
        ensures
            r@ == self.label(),
    {
        match self {
            Waveform::Pulse => "Pulse",
            Waveform::Sawtooth => "Saw",
            Waveform::Triangle => "Tri",
            Waveform::Noise => "Noise",
            Waveform::PulseSaw => "Pls+Saw",
        }
    }

    /// Return the next variant, wrapping around.
    pub fn next(self) -> (r: Self)
        ensures
            r == self.successor(),
    {
        match self {
            Waveform::Pulse => Waveform::Sawtooth,
            Waveform::Sawtooth => Waveform::Triangle,
            Waveform::Triangle => Waveform::Noise,
            Waveform::Noise => Waveform::PulseSaw,
            Waveform::PulseSaw => Waveform::Pulse,
        }
    }

    /// Return the previous variant, wrapping around.
    pub fn prev(self) -> (r: Self)
        ensures
            r == self.predecessor(),
    {
        match self {
            Waveform::Pulse => Waveform::PulseSaw,
            Waveform::Sawtooth => Waveform::Pulse,
            Waveform::Triangle => Waveform::Sawtooth,
            Waveform::Noise => Waveform::Triangle,
            Waveform::PulseSaw => Waveform::Noise,
        }
    }
}

/// `next` and `prev` undo each other.
pub proof fn lemma_waveform_next_prev_inverse(w: Waveform)
    ensures
        w.successor().predecessor() == w,
        w.predecessor().successor() == w,
{
}

/// Cycling with `next` from any waveform reaches the variant `k` positions
/// further along, and comes back to the start after one full round.
pub proof fn lemma_waveform_cycle(w: Waveform, k: nat)
    ensures
        w.successor_iter(k) == Waveform::from_index(w.index() + k),
        w.successor_iter(WAVEFORM_COUNT as nat) == w,
    decreases k,
{
    if k > 0 {
        lemma_waveform_cycle(w, (k - 1) as nat);
        let j = w.index() + k - 1;
        assert(Waveform::from_index(j).index() == j % 5);
        assert((j % 5 + 1) % 5 == (j + 1) % 5);
    }
    lemma_waveform_cycle_full(w);
}

proof fn lemma_waveform_cycle_full(w: Waveform)
    ensures
        w.successor_iter(WAVEFORM_COUNT as nat) == w,
{
    reveal_with_fuel(Waveform::successor_iter, 6);
}

// ─── FilterMode ──────────────────────────────────────────────────────────────

/// State-variable filter topology selector.
#[derive(Debug, Clone, Copy, PartialEq, Eq, Structural)]
pub enum FilterMode {
    /// Low-pass output.
    LowPass,
    /// Band-pass output.
    BandPass,
    /// High-pass output.
    HighPass,
}

/// Number of filter modes.
pub const FILTER_MODE_COUNT: usize = 3;

impl FilterMode {
    /// Position of the variant in cycling order.
    pub open spec fn index(self) -> int {
        match self {
            FilterMode::LowPass => 0,
            FilterMode::BandPass => 1,
            FilterMode::HighPass => 2,
        }
    }

    /// The variant at position `i` modulo the variant count.
    pub open spec fn from_index(i: int) -> FilterMode {
        let k = i % (FILTER_MODE_COUNT as int);
        if k == 0 {
            FilterMode::LowPass
        } else if k == 1 {
            FilterMode::BandPass
        } else {
            FilterMode::HighPass
        }
    }

    /// The display name of each variant.
    pub open spec fn label(self) -> Seq<char> {
        match self {
            FilterMode::LowPass => "LP"@,
            FilterMode::BandPass => "BP"@,
            FilterMode::HighPass => "HP"@,
        }
    }

    /// The variant that follows `self`, wrapping after the last one.
    pub open spec fn successor(self) -> FilterMode {
        FilterMode::from_index(self.index() + 1)
    }

    /// `k` applications of `successor`.
    pub open spec fn successor_iter(self, k: nat) -> FilterMode
        decreases k,
    {
        if k == 0 {
            self
        } else {
            self.successor_iter((k - 1) as nat).successor()
        }
    }

    /// Short display name shown in the UI.
    pub fn name(self) -> (r: &'static str)
        ensures
            r@ == self.label(),
    {
        match self {
            FilterMode::LowPass => "LP",
            FilterMode::BandPass => "BP",
            FilterMode::HighPass => "HP",
        }
    }

    /// Return the next variant, wrapping around.
    pub fn next(self) -> (r: Self)
        ensures
            r == self.successor(),
    {
        match self {
            FilterMode::LowPass => FilterMode::BandPass,
            FilterMode::BandPass => FilterMode::HighPass,
            FilterMode::HighPass => FilterMode::LowPass,
        }
    }
}

/// Cycling with `next` from any filter mode reaches the variant `k` positions
/// further along, and comes back to the start after one full round.
pub proof fn lemma_filter_mode_cycle(m: FilterMode, k: nat)
    ensures
        m.successor_iter(k) == FilterMode::from_index(m.index() + k),
        m.successor_iter(FILTER_MODE_COUNT as nat) == m,
    decreases k,
{
    if k > 0 {
        lemma_filter_mode_cycle(m, (k - 1) as nat);
        let j = m.index() + k - 1;
        assert(FilterMode::from_index(j).index() == j % 3);
        assert((j % 3 + 1) % 3 == (j + 1) % 3);
    }
    reveal_with_fuel(FilterMode::successor_iter, 4);
}

// ─── LfoTarget ───────────────────────────────────────────────────────────────

/// Selects which parameter the LFO modulates.
#[derive(Debug, Clone, Copy, PartialEq, Eq, Structural)]
pub enum LfoTarget {
    /// Pitch modulation (vibrato).
    Pitch,
    /// Pulse-width modulation.
    PulseWidth,
    /// Filter cutoff modulation.
    Cutoff,
    /// Amplitude modulation (tremolo).
    Volume,
}

/// Number of LFO targets.
pub const LFO_TARGET_COUNT: usize = 4;

impl LfoTarget {
    /// Position of the variant in cycling order.
    pub open spec fn index(self) -> int {
        match self {
            LfoTarget::Pitch => 0,
            LfoTarget::PulseWidth => 1,
            LfoTarget::Cutoff => 2,
            LfoTarget::Volume => 3,
        }
    }

    /// The variant at position `i` modulo the variant count.
    pub open spec fn from_index(i: int) -> LfoTarget {
        let k = i % (LFO_TARGET_COUNT as int);
        if k == 0 {
            LfoTarget::Pitch
        } else if k == 1 {
            LfoTarget::PulseWidth
        } else if k == 2 {
            LfoTarget::Cutoff
        } else {
            LfoTarget::Volume
        }
    }

    /// The display name of each variant.
    pub open spec fn label(self) -> Seq<char> {
        match self {
            LfoTarget::Pitch => "Pitch"@,
            LfoTarget::PulseWidth => "PW"@,
            LfoTarget::Cutoff => "Cutoff"@,
            LfoTarget::Volume => "Volume"@,
        }
    }

    /// The variant that follows `self`, wrapping after the last one.
    pub open spec fn successor(self) -> LfoTarget {
        LfoTarget::from_index(self.index() + 1)
    }

    /// `k` applications of `successor`.
    pub open spec fn successor_iter(self, k: nat) -> LfoTarget
        decreases k,
    {
        if k == 0 {
            self
        } else {
            self.successor_iter((k - 1) as nat).successor()
        }
    }

    /// Short display name shown in the UI.
    pub fn name(self) -> (r: &'static str)
        ensures
            r@ == self.label(),
    {
        match self {
            LfoTarget::Pitch => "Pitch",
            LfoTarget::PulseWidth => "PW",
            LfoTarget::Cutoff => "Cutoff",
            LfoTarget::Volume => "Volume",
        }
    }

    /// Return the next variant, wrapping around.
    pub fn next(self) -> (r: Self)
        ensures
            r == self.successor(),
    {
        match self {
            LfoTarget::Pitch => LfoTarget::PulseWidth,
            LfoTarget::PulseWidth => LfoTarget::Cutoff,
            LfoTarget::Cutoff => LfoTarget::Volume,
            LfoTarget::Volume => LfoTarget::Pitch,
        }
    }
}

/// Cycling with `next` from any LFO target reaches the variant `k` positions
/// further along, and comes back to the start after one full round.
pub proof fn lemma_lfo_target_cycle(t: LfoTarget, k: nat)
    ensures
        t.successor_iter(k) == LfoTarget::from_index(t.index() + k),
        t.successor_iter(LFO_TARGET_COUNT as nat) == t,
    decreases k,
{
    if k > 0 {
        lemma_lfo_target_cycle(t, (k - 1) as nat);
        let j = t.index() + k - 1;
        assert(LfoTarget::from_index(j).index() == j % 4);
        assert((j % 4 + 1) % 4 == (j + 1) % 4);
    }
    reveal_with_fuel(LfoTarget::successor_iter, 5);
}

// ─── MidiNote ────────────────────────────────────────────────────────────────

/// A typed wrapper around a MIDI note byte.
///
/// No range check is performed on construction; the MIDI spec defines valid
/// values as 0..=127, but values up to 255 are accepted.  Use
/// [`MidiNote::new_clamped`] when constructing from untrusted input.
#[derive(Debug, Clone, Copy, PartialEq, Eq, Structural, PartialOrd, Ord, Hash)]
pub struct MidiNote(pub u8);

/// Highest note number the MIDI spec allows.
pub const MIDI_MAX: u8 = 127;

impl MidiNote {
    /// Middle C (C4).
    pub fn middle_c() -> (r: Self)
        ensures
            r.0 == 60,
    {
        MidiNote(60)
    }

    /// A4 (440 Hz reference pitch).
    pub fn a4() -> (r: Self)
        ensures
            r.0 == 69,
    {
        MidiNote(69)
    }

    /// Clamp `v` to 0..=127 and wrap in `MidiNote`: the result is always in
    /// the MIDI range and leaves in-range values unchanged.
    pub fn new_clamped(v: u8) -> (r: Self)
        ensures
            r.0 == (if v > MIDI_MAX { MIDI_MAX } else { v }),
            r.0 <= MIDI_MAX,
            v <= MIDI_MAX ==> r.0 == v,
    {
        MidiNote(if v > MIDI_MAX { MIDI_MAX } else { v })
    }

    /// Raw MIDI byte value.
    pub fn as_u8(self) -> (r: u8)
        ensures
            r == self.0,
    {
        self.0
    }
}

impl From<u8> for MidiNote {
    fn from(v: u8) -> (r: Self) {
        MidiNote(v)
    }
}

impl vstd::std_specs::convert::FromSpecImpl<u8> for MidiNote {
    open spec fn obeys_from_spec() -> bool {
        true
    }

    open spec fn from_spec(v: u8) -> MidiNote {
        MidiNote(v)
    }
}

impl Default for MidiNote {
    fn default() -> (r: Self)
        ensures
            r.0 == 60,
    {
        MidiNote(60)
    }
}

// ─── ChannelNo ───────────────────────────────────────────────────────────────

/// Index of an independent synthesis channel (voice pool + parameter set).
///
/// Channel 0 is the default; values beyond the engine's channel count are
/// ignored by the engine.
#[derive(Debug, Clone, Copy, PartialEq, Eq, Structural, PartialOrd, Ord, Hash)]
pub struct ChannelNo(pub u8);

impl ChannelNo {
    /// Convert to `usize` for array indexing.
    pub fn as_usize(self) -> (r: usize)
        ensures
            r == self.0,
    {
        self.0 as usize
    }
}

impl From<u8> for ChannelNo {
    fn from(v: u8) -> (r: Self) {
        ChannelNo(v)
    }
}

impl vstd::std_specs::convert::FromSpecImpl<u8> for ChannelNo {
    open spec fn obeys_from_spec() -> bool {
        true
    }

    open spec fn from_spec(v: u8) -> ChannelNo {
        ChannelNo(v)
    }
}

impl Default for ChannelNo {
    fn default() -> (r: Self)
        ensures
            r.0 == 0,
    {
        ChannelNo(0)
    }
}

// ─── DrumHit ─────────────────────────────────────────────────────────────────

/// Drum one-shot events.
#[derive(Debug, Clone, Copy, PartialEq, Eq, Structural)]
pub enum DrumHit {
    /// Trigger a synthesized kick drum hit.
    Kick,
    /// Trigger a short, bright closed hi-hat hit.
    HiHatClosed,
    /// Trigger a longer, ringing open hi-hat hit.
    HiHatOpen,
}

} // verus!
