//! A step of a musical sequence, ordered and compared by its note.
use crate::midi::{Note, NoteError};
use core::cmp::Ordering;
use vstd::prelude::*;
use vstd::std_specs::cmp::{PartialEqSpecImpl, PartialOrdSpecImpl};

verus! {

/// Velocity of a new step (the loudest MIDI velocity).
pub const STEP_DEFAULT_VELOCITY: u8 = 127;

/// Gate time of a new step, as a percentage of the step's time.
pub const STEP_DEFAULT_LENGTH_STEP_CENTS: u8 = 80;

/// A step in a musical sequence.
#[derive(Clone, Copy, Debug)]
pub struct Step {
    pub note: Note,
    /// MIDI velocity, 0 to 127.
    pub velocity: u8,
    /// 14 bit MIDI pitch bend value.
    pub pitch_bend: u16,
    /// Note gate time as % of step time, e.g. 80 = 80%. Step time is defined by
    /// `Track::time_division`.
    pub length_step_cents: u8,
    /// Delay playing this step for % of track time division. Used for swing. A step can't be
    /// played early, because the clock comes from another device.
    pub delay: u8,
}

impl Step {
    /// The step that a new sequence is made of, with note number `note`.
    pub open spec fn spec_new(note: Note) -> Step {
        Step {
            note,
            velocity: STEP_DEFAULT_VELOCITY,
            pitch_bend: 0,
            length_step_cents: STEP_DEFAULT_LENGTH_STEP_CENTS,
            delay: 0,
        }
    }

    /// A new step playing note number `note`: full velocity, no pitch bend, 80% gate, no delay.
    /// Fails when `note` is not a MIDI note number.
    pub fn new(note: u8) -> (r: Result<Step, NoteError>)
        ensures
            note <= 127 ==> (r matches Ok(s) && s == Step::spec_new(s.note) && s.note.value() == note),
            note > 127 ==> r == Err::<Step, NoteError>(NoteError::InvalidNoteNumber),
    {
        match Note::new(note) {
            Ok(n) => Ok(
                Step {
                    note: n,
                    velocity: STEP_DEFAULT_VELOCITY,
                    pitch_bend: 0,
                    length_step_cents: STEP_DEFAULT_LENGTH_STEP_CENTS,
                    delay: 0,
                },
            ),
            Err(e) => Err(e),
        }
    }
}

impl PartialEq for Step {
    /// Two steps are equal when they play the same note.
    fn eq(&self, other: &Step) -> (r: bool) {
        self.note.number() == other.note.number()
    }
}

impl PartialEqSpecImpl for Step {
    open spec fn obeys_eq_spec() -> bool {
        true
    }

    open spec fn eq_spec(&self, other: &Step) -> bool {
        self.note.value() == other.note.value()
    }
}

impl Eq for Step {}

impl PartialOrd for Step {
    /// Steps are ordered by note number.
    fn partial_cmp(&self, other: &Step) -> (r: Option<Ordering>) {
        let a = self.note.number();
        let b = other.note.number();
        if a < b {
            Some(Ordering::Less)
        } else if a == b {
            Some(Ordering::Equal)
        } else {
            Some(Ordering::Greater)
        }
    }
}

impl PartialOrdSpecImpl for Step {
    open spec fn obeys_partial_cmp_spec() -> bool {
        true
    }

    open spec fn partial_cmp_spec(&self, other: &Step) -> Option<Ordering> {
        if self.note.value() < other.note.value() {
            Some(Ordering::Less)
        } else if self.note.value() == other.note.value() {
            Some(Ordering::Equal)
        } else {
            Some(Ordering::Greater)
        }
    }
}

} // verus!
