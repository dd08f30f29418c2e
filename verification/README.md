# synthie

A SID-style terminal synthesizer and a four-channel step tracker, with the
integer logic of both held in a library whose contracts Verus proves.

## Layout

- `src/` — the verified library:
  - `params` — waveform, filter-mode and LFO-target enums with their cycling
    order; MIDI note and channel newtypes.
  - `keys` — the two-row piano layout and MIDI note arithmetic.
  - `notes` — the monophonic note stack (last-note priority, legato return).
  - `voices` — polyphonic voice allocation (same note, else idle, else oldest).
  - `env` — envelope stage changes on note events.
  - `lfsr` — the noise generator's Galois LFSR.
  - `arp` — the arpeggiator's note list and step order.
  - `scope` — the rolling window behind the waveform scope.
  - `synth_ui` — navigation state and key handling of the synthesizer.
  - `tracker` — pattern, song, note names, editing state, key handling,
    step sequencing and grid layout of the tracker.
- `tests/` — tests of the library on concrete values.
- `app/` — the programs: terminal I/O, the audio device, the playback thread,
  the preset file and the floating-point signal processing.  `synthie` runs the
  synthesizer, `synthie tracker` the tracker.
