use synthie::notes::{NoteEvent, NoteStack, VoiceCommand};
use synthie::params::MidiNote;
use synthie::voices::{VoiceAllocator, POLYPHONY};

#[test]
fn note_stack_last_note_priority() {
    let mut s = NoteStack::new();
    assert!(s.is_empty());
    s.press(60);
    s.press(64);
    assert_eq!(s.top(), Some(64));
    // Releasing the newest returns to the previous held note.
    assert_eq!(s.release(64), Some(60));
    assert_eq!(s.release(60), None);
    assert!(s.is_empty());
}

#[test]
fn note_stack_repress_promotes() {
    let mut s = NoteStack::new();
    s.press(60);
    s.press(64);
    s.press(60);
    assert_eq!(s.top(), Some(60));
    assert_eq!(s.release(60), Some(64));
    // Releasing a note that is not held keeps the top.
    assert_eq!(s.release(99), Some(64));
    s.clear();
    assert_eq!(s.top(), None);
}

#[test]
fn note_events_drive_the_voice() {
    let mut s = NoteStack::new();
    assert_eq!(s.apply_event(NoteEvent::On(60)), VoiceCommand::NoteOn(60));
    assert_eq!(s.apply_event(NoteEvent::On(67)), VoiceCommand::NoteOn(67));
    // Legato back to the held note.
    assert_eq!(s.apply_event(NoteEvent::Off(67)), VoiceCommand::NoteOn(60));
    assert_eq!(s.apply_event(NoteEvent::Off(60)), VoiceCommand::NoteOff);
    s.apply_event(NoteEvent::On(50));
    assert_eq!(s.apply_event(NoteEvent::Panic), VoiceCommand::Panic);
    assert!(s.is_empty());
}

#[test]
fn allocator_reuses_slot_of_same_note() {
    let mut a = VoiceAllocator::new();
    let idle = [false; POLYPHONY];
    let i = a.note_on(MidiNote(60), &idle);
    assert_eq!(i, 0);
    let j = a.note_on(MidiNote(64), &[true, false, false, false]);
    assert_eq!(j, 1);
    let k = a.note_on(MidiNote(60), &[true, true, false, false]);
    assert_eq!(k, 0);
    assert_eq!(a.age_counter, 3);
    assert_eq!(a.slots[0].age, 3);
}

#[test]
fn allocator_prefers_idle_then_oldest() {
    let mut a = VoiceAllocator::new();
    let busy = [true; POLYPHONY];
    assert_eq!(a.note_on(MidiNote(60), &[false, false, false, false]), 0);
    assert_eq!(a.note_on(MidiNote(62), &[true, false, false, false]), 1);
    assert_eq!(a.note_on(MidiNote(64), &[true, true, false, false]), 2);
    assert_eq!(a.note_on(MidiNote(65), &[true, true, true, false]), 3);
    // All voices busy: steal the oldest (slot 0, age 1).
    assert_eq!(a.note_on(MidiNote(67), &busy), 0);
    assert_eq!(a.slots[0].note, Some(MidiNote(67)));
    // Next oldest is slot 1.
    assert_eq!(a.allocate_voice_index(MidiNote(69), &busy), 1);
}

#[test]
fn released_slot_without_sound_is_idle() {
    let mut a = VoiceAllocator::new();
    a.note_on(MidiNote(60), &[false; POLYPHONY]);
    a.note_on(MidiNote(62), &[true, false, false, false]);
    assert_eq!(a.note_off(MidiNote(60)), Some(0));
    assert_eq!(a.note_off(MidiNote(60)), None);
    // Voice 0 still rings out: skip it; voice 2 is free.
    assert_eq!(a.allocate_voice_index(MidiNote(70), &[true, true, false, false]), 2);
    // Voice 0 went silent: it is the first idle one.
    assert_eq!(a.allocate_voice_index(MidiNote(70), &[false, true, false, false]), 0);
}

#[test]
fn allocator_panic_resets() {
    let mut a = VoiceAllocator::new();
    a.note_on(MidiNote(60), &[false; POLYPHONY]);
    a.panic();
    assert_eq!(a.age_counter, 0);
    for s in a.slots.iter() {
        assert_eq!(s.note, None);
        assert_eq!(s.age, 0);
    }
}
