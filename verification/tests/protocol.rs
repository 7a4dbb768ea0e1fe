use humanophone::midi::{handle_midi_event, on_midi, select_port, MidiEvent, PortChoice};
use humanophone::protocol::{
    NoteSet, CLIENT_RECONNECT_DURATION, PING_AWAIT_INTERVAL, PING_INTERVAL,
    PING_TO_PONG_ALLOWED_DELAY, PITCHES, PROTOCOL_VERSION,
};

#[test]
fn constants_have_their_values() {
    assert_eq!(PROTOCOL_VERSION, 1);
    assert_eq!(PING_INTERVAL, 10_000);
    assert_eq!(PING_AWAIT_INTERVAL, 15_000);
    assert_eq!(PING_TO_PONG_ALLOWED_DELAY, 5_000);
    assert_eq!(CLIENT_RECONNECT_DURATION, 500);
    assert_eq!(PITCHES, 128);
}

#[test]
fn note_set_holds_what_was_put_in() {
    let mut set = NoteSet::new();
    assert_eq!(set.id_mask(), 0);
    assert!(!set.contains(60));
    set.insert(60);
    set.insert(0);
    set.insert(127);
    set.insert(60);
    assert!(set.contains(60));
    assert!(set.contains(0));
    assert!(set.contains(127));
    assert!(!set.contains(61));
    assert_eq!(set.id_mask(), 1u128 | (1u128 << 60) | (1u128 << 127));
    set.remove(60);
    assert!(!set.contains(60));
    set.remove(60);
    set.remove(5);
    assert_eq!(set.id_mask(), 1u128 | (1u128 << 127));
}

#[test]
fn note_set_ignores_what_is_no_pitch() {
    let mut set = NoteSet::new();
    set.insert(128);
    set.insert(255);
    assert_eq!(set, NoteSet::new());
    assert!(!set.contains(128));
    set.insert(3);
    set.remove(131);
    set.remove(255);
    assert!(set.contains(3));
    assert_eq!(set, NoteSet::from_id_mask(8));
}

#[test]
fn note_set_is_its_mask() {
    let set = NoteSet::from_id_mask((1u128 << 57) | (1u128 << 60));
    assert!(set.contains(57));
    assert!(set.contains(60));
    assert!(!set.contains(58));
    assert_eq!(set.id_mask(), (1u128 << 57) | (1u128 << 60));
}

#[test]
fn keys_going_down_and_up_change_the_notes() {
    let mut notes = NoteSet::new();
    handle_midi_event(MidiEvent::NoteOn { key: 60, vel: 100 }, &mut notes);
    handle_midi_event(MidiEvent::NoteOn { key: 64, vel: 1 }, &mut notes);
    handle_midi_event(MidiEvent::NoteOn { key: 67, vel: 127 }, &mut notes);
    assert_eq!(notes.id_mask(), (1u128 << 60) | (1u128 << 64) | (1u128 << 67));
    handle_midi_event(MidiEvent::NoteOff { key: 64, vel: 0 }, &mut notes);
    assert_eq!(notes.id_mask(), (1u128 << 60) | (1u128 << 67));
    handle_midi_event(MidiEvent::NoteOn { key: 60, vel: 0 }, &mut notes);
    assert_eq!(notes.id_mask(), 1u128 << 67);
    handle_midi_event(MidiEvent::Other, &mut notes);
    handle_midi_event(MidiEvent::NoteOff { key: 1, vel: 9 }, &mut notes);
    handle_midi_event(MidiEvent::NoteOn { key: 200, vel: 9 }, &mut notes);
    assert_eq!(notes.id_mask(), 1u128 << 67);
}

#[test]
fn only_key_messages_are_kept() {
    let on = MidiEvent::NoteOn { key: 1, vel: 2 };
    let off = MidiEvent::NoteOff { key: 3, vel: 4 };
    assert_eq!(on_midi(on), Some(on));
    assert_eq!(on_midi(off), Some(off));
    assert_eq!(on_midi(MidiEvent::Other), None);
}

#[test]
fn port_is_chosen_as_asked() {
    assert_eq!(select_port(0, None), PortChoice::NoPort);
    assert_eq!(select_port(0, Some(0)), PortChoice::NoPort);
    assert_eq!(select_port(1, None), PortChoice::Use(0));
    assert_eq!(select_port(1, Some(7)), PortChoice::Use(0));
    assert_eq!(select_port(3, Some(2)), PortChoice::Use(2));
    assert_eq!(select_port(3, Some(0)), PortChoice::Use(0));
    assert_eq!(select_port(3, Some(3)), PortChoice::InvalidIndex);
    assert_eq!(select_port(3, None), PortChoice::Ask);
}
