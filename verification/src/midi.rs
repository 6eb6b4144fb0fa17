//! The wire side of the connection: the raw note byte, the parsing of raw
//! frames into recognized messages, and the FIFO queue that carries the
//! translated events from the hardware callback to the consumer.

use vstd::prelude::*;
use vstd::string::StrSliceExecFns;
use crate::input::InputEvent;

verus! {

/// A MIDI note byte.
#[derive(Clone, Copy, Debug, PartialEq, Eq, Structural)]
pub struct MidiNote(pub u8);

/// A parsed wire message: one of the three recognized 3-byte frame shapes.
#[derive(Clone, Copy, Debug, PartialEq, Eq, Structural)]
pub enum InputMessage {
    NoteOn(u8),
    NoteOff(u8),
    ControlChange(u8, u8),
}

impl InputMessage {
    /// Parsing of a raw frame: recognized are exactly the 3-byte frames whose
    /// status byte is 0x90 (note on), 0x80 (note off) or 0xB0 (control
    /// change); every other frame is dropped without an error.
    pub open spec fn try_from_raw_spec(bytes: Seq<u8>) -> Option<InputMessage> {
        if bytes.len() == 3 {
            if bytes[0] == 0x90 {
                Some(InputMessage::NoteOn(bytes[1]))
            } else if bytes[0] == 0x80 {
                Some(InputMessage::NoteOff(bytes[1]))
            } else if bytes[0] == 0xb0 {
                Some(InputMessage::ControlChange(bytes[1], bytes[2]))
            } else {
                None
            }
        } else {
            None
        }
    }

    /// Parse a raw frame into a recognized message, silently dropping every
    /// frame of another shape.
    pub fn try_from_raw(msg: &[u8]) -> (r: Option<InputMessage>)
        ensures
            r == Self::try_from_raw_spec(msg@),
    {
        if msg.len() == 3 {
            let cmd: u8 = msg[0];
            let note: u8 = msg[1];
            let vel: u8 = msg[2];
            if cmd == 0x90 {
                Some(InputMessage::NoteOn(note))
            } else if cmd == 0x80 {
                Some(InputMessage::NoteOff(note))
            } else if cmd == 0xb0 {
                Some(InputMessage::ControlChange(note, vel))
            } else {
                None
            }
        } else {
            None
        }
    }
}

/// The unbounded FIFO queue of translated events between the hardware
/// callback and the consumer. The producer appends at the back, the consumer
/// removes from the front, so events come out in exactly the order they went
/// in. The thread handoff around it lives in unverified glue, which keeps the
/// two sides from touching the queue at once.
pub struct EventQueue {
    events: Vec<InputEvent>,
}

impl View for EventQueue {
    type V = Seq<InputEvent>;

    closed spec fn view(&self) -> Seq<InputEvent> {
        self.events@
    }
}

impl EventQueue {
    /// Create an empty queue.
    pub fn new() -> (q: EventQueue)
        ensures
            q@ == Seq::<InputEvent>::empty(),
    {
        EventQueue { events: Vec::new() }
    }

    /// Append one event at the back of the queue.
    pub fn push(&mut self, e: InputEvent)
        ensures
            final(self)@ == old(self)@.push(e),
    {
        self.events.push(e);
    }

    /// Remove and return the oldest event, or nothing when the queue is empty.
    pub fn pop(&mut self) -> (r: Option<InputEvent>)
        ensures
            old(self)@.len() == 0 ==> r is None && final(self)@ == old(self)@,
            old(self)@.len() > 0 ==> r == Some(old(self)@.first()) && final(self)@ == old(self)@.drop_first(),
    {
        if self.events.len() == 0 {
            None
        } else {
            Some(self.events.remove(0))
        }
    }

    /// How many events are waiting.
    pub fn len(&self) -> (n: usize)
        ensures
            n == self@.len(),
    {
        self.events.len()
    }

    /// Whether no event is waiting.
    pub fn is_empty(&self) -> (b: bool)
        ensures
            b == (self@.len() == 0),
    {
        self.events.len() == 0
    }
}

/// True when `prefix` is an initial segment of `name`.
pub open spec fn starts_with_spec(name: Seq<char>, prefix: Seq<char>) -> bool {
    prefix.is_prefix_of(name)
}

/// Whether `name` begins with `prefix`, compared character by character.
pub fn starts_with(name: &str, prefix: &str) -> (r: bool)
    ensures
        r == starts_with_spec(name@, prefix@),
{
    let name_len: usize = name.unicode_len();
    let prefix_len: usize = prefix.unicode_len();
    if prefix_len > name_len {
        return false;
    }
    let mut i: usize = 0;
    while i < prefix_len
        invariant
            i <= prefix_len,
            prefix_len == prefix@.len(),
            prefix_len <= name_len == name@.len(),
            forall|j: int| 0 <= j < i ==> name@[j] == prefix@[j],
        decreases prefix_len - i,
    {
        if name.get_char(i) != prefix.get_char(i) {
            assert(name@.subrange(0, prefix@.len() as int)[i as int] == name@[i as int]);
            return false;
        }
        i = i + 1;
    }
    proof {
        assert(name@.subrange(0, prefix@.len() as int) =~= prefix@);
    }
    true
}

/// Index of the first port whose name starts with the given prefix, if any
/// does. This is the pure half of port lookup; the unverified glue hands it
/// the names it got from the transport's enumeration.
pub fn find_port(names: &Vec<String>, prefix: &str) -> (r: Option<usize>)
    ensures
        match r {
            Some(i) => i < names@.len()
                && starts_with_spec(names@[i as int]@, prefix@)
                && (forall|j: int| 0 <= j < i ==> !starts_with_spec(#[trigger] names@[j]@, prefix@)),
            None => forall|j: int| 0 <= j < names@.len() ==> !starts_with_spec(#[trigger] names@[j]@, prefix@),
        },
{
    let mut i: usize = 0;
    while i < names.len()
        invariant
            i <= names@.len(),
            forall|j: int| 0 <= j < i ==> !starts_with_spec(#[trigger] names@[j]@, prefix@),
        decreases names@.len() - i,
    {
        if starts_with(names[i].as_str(), prefix) {
            return Some(i);
        }
        i = i + 1;
    }
    None
}

} // verus!
