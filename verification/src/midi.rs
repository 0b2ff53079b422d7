//! MIDI note numbers and the note messages the sequencer sends.
use vstd::prelude::*;

verus! {

/// Highest MIDI note number (G8).
pub const NOTE_MAX: u8 = 127;

/// A MIDI note number, `0` (C-2) to `127` (G8). Middle C (C3) is `60`.
#[derive(Clone, Copy, Debug, PartialEq, Eq, Structural)]
pub struct Note {
    num: u8,
}

/// A number that is not a MIDI note number.
#[derive(Clone, Copy, Debug, PartialEq, Eq, Structural)]
pub enum NoteError {
    InvalidNoteNumber,
}

impl Note {
    #[verifier::type_invariant]
    spec fn inv(self) -> bool {
        self.num <= NOTE_MAX
    }

    /// The note number.
    pub closed spec fn value(self) -> u8 {
        self.num
    }

    /// The note with number `num` (a value of the type only when `num` is at most 127).
    pub closed spec fn from_value(num: u8) -> Note {
        Note { num }
    }

    /// `from_value` gives the note with the number asked for.
    pub proof fn lemma_from_value(num: u8)
        ensures
            #[trigger] Note::from_value(num).value() == num,
    {
    }

    /// A note is the note of its number.
    pub proof fn lemma_from_own_value(n: Note)
        ensures
            #[trigger] Note::from_value(n.value()) == n,
    {
    }

    /// Notes are equal exactly when their numbers are.
    pub proof fn lemma_value_injective(a: Note, b: Note)
        ensures
            (a == b) == (a.value() == b.value()),
    {
    }

    /// The note with number `num`, or an error if `num` is above 127.
    pub fn new(num: u8) -> (r: Result<Note, NoteError>)
        ensures
            num <= NOTE_MAX ==> (r matches Ok(n) && n.value() == num && n == Note::from_value(num)),
            num > NOTE_MAX ==> r == Err::<Note, NoteError>(NoteError::InvalidNoteNumber),
    {
        if num <= NOTE_MAX {
            Ok(Note { num })
        } else {
            Err(NoteError::InvalidNoteNumber)
        }
    }

    /// The note number, always at most 127.
    pub fn number(&self) -> (r: u8)
        ensures
            r == self.value(),
            r <= NOTE_MAX,
    {
        proof {
            use_type_invariant(self);
        }
        self.num
    }
}

impl Default for Note {
    /// Middle C (C3, note number 60).
    fn default() -> (r: Note)
        ensures
            r.value() == 60,
    {
        Note { num: 60 }
    }
}

/// A MIDI note message: channel (0 to 15), note number and velocity.
#[derive(Clone, Copy, Debug, PartialEq, Eq, Structural)]
pub enum MidiMessage {
    NoteOn(u8, u8, u8),
    NoteOff(u8, u8, u8),
}

} // verus!
