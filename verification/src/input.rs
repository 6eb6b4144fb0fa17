//! Typed input events, and how parsed wire messages translate to them.

use vstd::prelude::*;
use crate::element_idx::{ButtonIdx, SliderIdx};
use crate::midi::{InputMessage, MidiNote};

verus! {

/// Error: the raw value byte is not a valid slider reading.
#[derive(Clone, Copy, Debug, PartialEq, Eq, Structural)]
pub struct SliderValueFromMidiError;

/// A slider reading derived from a raw 0..=127 value byte. The fraction of
/// full scale it denotes is the raw value over 127.
#[derive(Clone, Copy, Debug, PartialEq, Eq, Structural)]
pub struct SliderValue(u8);

impl SliderValue {
    /// The raw value byte behind the reading.
    pub closed spec fn raw_spec(self) -> u8 {
        self.0
    }

    /// The reading holds a byte below 128.
    pub open spec fn wf(self) -> bool {
        self.raw_spec() < 128
    }

    /// The reading made from a raw value byte: defined exactly on 0..=127.
    pub closed spec fn from_raw_spec(value: u8) -> Option<SliderValue> {
        if value < 128 {
            Some(SliderValue(value))
        } else {
            None
        }
    }

    /// Create a reading from a raw value byte, if the byte is below 128.
    pub fn new(value: u8) -> (r: Option<SliderValue>)
        ensures
            r == Self::from_raw_spec(value),
            value < 128 ==> (r matches Some(v) && v.raw_spec() == value),
            value >= 128 ==> r is None,
    {
        if value < 128 {
            Some(SliderValue(value))
        } else {
            None
        }
    }

    /// The raw value byte behind the reading.
    pub fn raw(self) -> (r: u8)
        ensures
            r == self.raw_spec(),
    {
        self.0
    }
}

/// A reading made from a raw byte holds that byte, and two readings from the
/// same byte are equal.
pub proof fn lemma_slider_value_from_raw(value: u8)
    ensures
        SliderValue::from_raw_spec(value) is Some <==> value < 128,
        SliderValue::from_raw_spec(value) matches Some(v) ==> v.raw_spec() == value && v.wf(),
{
}

/// One typed hardware input event: a button pressed or released, or a slider
/// moved to a new reading.
#[derive(Clone, Copy, Debug, PartialEq, Eq, Structural)]
pub enum InputEvent {
    ButtonEvent { idx: ButtonIdx, is_pressed: bool },
    SliderEvent { idx: SliderIdx, value: SliderValue },
}

impl InputEvent {
    /// Translation of a parsed wire message: a note maps to a button event if
    /// its byte decodes as a button address, a control change maps to a
    /// slider event if its controller byte decodes as a slider address and
    /// its value byte is a valid reading; everything else is discarded.
    pub open spec fn from_message_spec(msg: InputMessage) -> Option<InputEvent> {
        match msg {
            InputMessage::NoteOn(n) => match ButtonIdx::from_raw_spec(MidiNote(n)) {
                Ok(idx) => Some(InputEvent::ButtonEvent { idx, is_pressed: true }),
                Err(_) => None,
            },
            InputMessage::NoteOff(n) => match ButtonIdx::from_raw_spec(MidiNote(n)) {
                Ok(idx) => Some(InputEvent::ButtonEvent { idx, is_pressed: false }),
                Err(_) => None,
            },
            InputMessage::ControlChange(c, v) => match (SliderIdx::from_raw_spec(MidiNote(c)), SliderValue::from_raw_spec(v)) {
                (Ok(idx), Some(value)) => Some(InputEvent::SliderEvent { idx, value }),
                _ => None,
            },
        }
    }

    /// Translate a parsed wire message into a typed event; a message whose
    /// address or value fails to decode yields no event.
    pub fn from_message(msg: &InputMessage) -> (r: Option<InputEvent>)
        ensures
            r == Self::from_message_spec(*msg),
    {
        match *msg {
            InputMessage::NoteOn(n) => match ButtonIdx::from_raw(MidiNote(n)) {
                Ok(idx) => Some(InputEvent::ButtonEvent { idx, is_pressed: true }),
                Err(_) => None,
            },
            InputMessage::NoteOff(n) => match ButtonIdx::from_raw(MidiNote(n)) {
                Ok(idx) => Some(InputEvent::ButtonEvent { idx, is_pressed: false }),
                Err(_) => None,
            },
            InputMessage::ControlChange(c, v) => match (SliderIdx::from_raw(MidiNote(c)), SliderValue::new(v)) {
                (Ok(idx), Some(value)) => Some(InputEvent::SliderEvent { idx, value }),
                _ => None,
            },
        }
    }
}

} // verus!
