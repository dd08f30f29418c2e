//! Stages of the ADSR amplitude envelope and the stage changes that note
//! events cause.
//!
//! Legato behaviour: a note-on that arrives while the envelope is still
//! active continues the attack from the current level instead of restarting
//! from zero.

use vstd::prelude::*;

verus! {

/// Stage of the amplitude envelope.
#[derive(Debug, Clone, Copy, PartialEq, Eq, Structural)]
pub enum EnvStage {
    /// Silent, waiting for a note.
    Idle,
    /// Rising towards full level.
    Attack,
    /// Falling towards the sustain level.
    Decay,
    /// Holding the sustain level.
    Sustain,
    /// Fading out after note-off.
    Release,
}

impl EnvStage {
    /// The display name of each stage.
    pub open spec fn label(self) -> Seq<char> {
        match self {
            EnvStage::Idle => "Idle"@,
            EnvStage::Attack => "Attack"@,
            EnvStage::Decay => "Decay"@,
            EnvStage::Sustain => "Sustain"@,
            EnvStage::Release => "Release"@,
        }
    }

    /// Display name of the stage.
    pub fn name(self) -> (r: &'static str)
        ensures
            r@ == self.label(),
    {
        match self {
            EnvStage::Idle => "Idle",
            EnvStage::Attack => "Attack",
            EnvStage::Decay => "Decay",
            EnvStage::Sustain => "Sustain",
            EnvStage::Release => "Release",
        }
    }

    /// `true` in every stage but `Idle`.
    pub fn is_active(self) -> (r: bool)
        ensures
            r == (self != EnvStage::Idle),
    {
        !matches!(self, EnvStage::Idle)
    }

    /// Whether a note-on keeps the current level (legato on an active
    /// envelope) instead of restarting the attack from zero.  In both cases
    /// the next stage is `Attack`.
    pub fn note_on_keeps_level(self, legato: bool) -> (r: bool)
        ensures
            r == (legato && self != EnvStage::Idle),
    {
        legato && self.is_active()
    }

    /// Stage after a note-on: every note-on, legato or not, (re)enters the
    /// attack.
    pub fn after_note_on(self) -> (r: EnvStage)
        ensures
            r == EnvStage::Attack,
    {
        EnvStage::Attack
    }

    /// Stage after a note-off: an active envelope starts its release, an
    /// idle one stays idle.
    pub fn after_note_off(self) -> (r: EnvStage)
        ensures
            r == (if self == EnvStage::Idle {
                EnvStage::Idle
            } else {
                EnvStage::Release
            }),
    {
        if self.is_active() {
            EnvStage::Release
        } else {
            EnvStage::Idle
        }
    }
}

} // verus!
