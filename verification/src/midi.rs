//! What a publisher makes of the keys of a MIDI instrument.

use crate::protocol::{NoteSet, PITCHES};
use vstd::prelude::*;

verus! {

/// A message of a MIDI instrument, as far as a publisher reads it. A key
/// is the number of a pitch.
#[derive(Clone, Copy, Debug, PartialEq, Eq, Structural)]
pub enum MidiEvent {
    /// A key went down with velocity `vel`; with velocity 0 it went up.
    NoteOn { key: u8, vel: u8 },
    /// A key went up.
    NoteOff { key: u8, vel: u8 },
    /// Any other message.
    Other,
}

/// Keeps the messages that say that a key moved, and drops the others.
pub fn on_midi(event: MidiEvent) -> (kept: Option<MidiEvent>)
    ensures
        kept == (if event == MidiEvent::Other {
            None
        } else {
            Some(event)
        }),
{
    match event {
        MidiEvent::NoteOn { .. } => Some(event),
        MidiEvent::NoteOff { .. } => Some(event),
        MidiEvent::Other => None,
    }
}

/// The notes that sound after `event`, given those that sounded before.
pub open spec fn notes_after(event: MidiEvent, notes: Set<u8>) -> Set<u8> {
    match event {
        MidiEvent::NoteOn { key, vel } => if vel == 0 {
            notes.remove(key)
        } else if key < PITCHES {
            notes.insert(key)
        } else {
            notes
        },
        MidiEvent::NoteOff { key, vel } => notes.remove(key),
        MidiEvent::Other => notes,
    }
}

/// Brings the set of notes that sound up to date with `event`: a key that
/// went down is added, a key that went up is taken out, and a key that went
/// down with velocity 0 went up. A key that is no pitch and any other
/// message change nothing.
pub fn handle_midi_event(event: MidiEvent, notes: &mut NoteSet)
    ensures
        final(notes)@ == notes_after(event, old(notes)@),
{
    match event {
        MidiEvent::NoteOn { key, vel } => {
            if vel == 0 {
                notes.remove(key);
            } else {
                notes.insert(key);
            }
        },
        MidiEvent::NoteOff { key, vel: _ } => {
            notes.remove(key);
        },
        MidiEvent::Other => {},
    }
}

/// Which input port a publisher reads.
#[derive(Clone, Copy, Debug, PartialEq, Eq, Structural)]
pub enum PortChoice {
    /// There is no port.
    NoPort,
    /// The port with this index.
    Use(usize),
    /// The index that was asked for names no port.
    InvalidIndex,
    /// There are several ports and none was asked for: ask.
    Ask,
}

/// Chooses among `available` input ports, of which the one at `index` was
/// asked for, if any was. The only port is taken whatever was asked for.
pub fn select_port(available: usize, index: Option<usize>) -> (choice: PortChoice)
    ensures
        choice == (if available == 0 {
            PortChoice::NoPort
        } else if available == 1 {
            PortChoice::Use(0)
        } else {
            match index {
                Some(index) => if index < available {
                    PortChoice::Use(index)
                } else {
                    PortChoice::InvalidIndex
                },
                None => PortChoice::Ask,
            }
        }),
{
    if available == 0 {
        PortChoice::NoPort
    } else if available == 1 {
        PortChoice::Use(0)
    } else {
        match index {
            Some(index) => if index < available {
                PortChoice::Use(index)
            } else {
                PortChoice::InvalidIndex
            },
            None => PortChoice::Ask,
        }
    }
}

} // verus!
