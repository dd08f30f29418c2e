//! Verified core of a small polyphonic synthesizer and step-sequencer tracker.
//!
//! The modules here hold the integer logic of the engine: parameter enums and
//! their cycling order, MIDI note and channel newtypes, the monophonic note
//! stack, polyphonic voice allocation, the arpeggiator's note list and step
//! order, the tracker's pattern editor and step sequencing, keyboard mapping,
//! and the rolling scope buffer.  Every public function carries a contract that
//! Verus checks.

pub mod arp;
pub mod env;
pub mod keys;
pub mod lfsr;
pub mod notes;
pub mod params;
pub mod scope;
pub mod synth_ui;
pub mod tracker;
pub mod voices;
