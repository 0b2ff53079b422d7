//! Sequence generation and playback for an 8-track MIDI sequence generator.
//!
//! Tracks hold sequences of steps; machines generate rhythms and melodies; a quantizer fits
//! melodies to scales; the sequencer turns the tracks into scheduled MIDI messages on each MIDI
//! clock tick.

pub mod arith;
pub mod machine;
pub mod machine_resources;
pub mod midi;
pub mod param;
pub mod params;
pub mod encoder;
pub mod input;
pub mod layout;
pub mod part;
pub mod quantizer;
pub mod sequence_generator;
pub mod sequencer;
pub mod step;
pub mod storage;
pub mod text;

use crate::midi::Note;
use crate::param::{params_of, Param, ParamError, ParamList, ParamValue};
use crate::sequence_generator::{initial_steps, SequenceGenerator};
use crate::storage::{param_list_get, param_list_new, param_list_push, step_vec_as_slice, step_vec_clone, step_vec_contents, step_vec_rotate_left, step_vec_rotate_right, step_vec_set};
use vstd::prelude::*;
use vstd::std_specs::cmp::PartialEqSpecImpl;
use vstd::std_specs::convert::TryFromSpecImpl;

verus! {

pub use crate::arith::trunc_div;
pub use crate::step::Step;

/// Number of tracks held by the sequencer.
pub const TRACK_COUNT: usize = 16;

/// A track can't be shorter than one step (the live effect of repeating a single step).
pub const TRACK_MIN_LENGTH: u8 = 1;

/// Longest track, in steps.
pub const TRACK_MAX_LENGTH: u8 = 32;

/// Length of a new track, in steps.
pub const TRACK_DEFAULT_LENGTH: u8 = 8;

/// Capacity of a sequence, in steps.
pub const SEQUENCE_MAX_STEPS: usize = 32;

/// Lowest track number shown to the user.
pub const TRACK_MIN_NUM: u8 = 1;

/// Lowest MIDI channel shown to the user.
pub const MIDI_MIN_CHANNEL: u8 = 1;

/// Highest MIDI channel shown to the user.
pub const MIDI_MAX_CHANNEL: u8 = 16;

/// The value of `map_to_range`, computed over the integers with Rust's truncating division.
pub open spec fn map_to_range_spec(x: int, in_min: int, in_max: int, out_min: int, out_max: int) -> int {
    trunc_div((x - in_min) * (out_max - out_min + 1), in_max - in_min + 1) + out_min
}

/// True when every intermediate value of `map_to_range` fits in an `i32` and the input range
/// is not empty, so that the divisor is positive.
pub open spec fn map_to_range_in_bounds(x: int, in_min: int, in_max: int, out_min: int, out_max: int) -> bool {
    let a = x - in_min;
    let b = out_max - out_min + 1;
    let d = in_max - in_min + 1;
    &&& i32::MIN <= a <= i32::MAX
    &&& i32::MIN <= out_max - out_min <= i32::MAX
    &&& i32::MIN <= b <= i32::MAX
    &&& i32::MIN <= a * b <= i32::MAX
    &&& i32::MIN <= in_max - in_min <= i32::MAX
    &&& 0 < d <= i32::MAX
    &&& i32::MIN <= trunc_div(a * b, d) + out_min <= i32::MAX
}

/// Map `x` from the range `in_min..=in_max` onto the range `out_min..=out_max`, splitting the
/// input range into equally sized buckets, one per output value.
pub fn map_to_range(x: i32, in_min: i32, in_max: i32, out_min: i32, out_max: i32) -> (r: i32)
    requires
        map_to_range_in_bounds(x as int, in_min as int, in_max as int, out_min as int, out_max as int),
    ensures
        r == map_to_range_spec(x as int, in_min as int, in_max as int, out_min as int, out_max as int),
{
    let a = x - in_min;
    let b = out_max - out_min + 1;
    let d = in_max - in_min + 1;
    let p = a * b;
    let q = p / d;
    q + out_min
}


/// `map_to_range` maps the input range into the output range: every input in
/// `in_min..=in_max` lands in `out_min..=out_max`, the lowest on `out_min`.
pub proof fn lemma_map_to_range_in_range(x: int, in_min: int, in_max: int, out_min: int, out_max: int)
    requires
        in_min <= x <= in_max,
        out_min <= out_max,
    ensures
        out_min <= map_to_range_spec(x, in_min, in_max, out_min, out_max) <= out_max,
        map_to_range_spec(in_min, in_min, in_max, out_min, out_max) == out_min,
{
    let a = x - in_min;
    let b = out_max - out_min + 1;
    let d = in_max - in_min + 1;
    assert(0 <= a * b <= (d - 1) * b) by (nonlinear_arith)
        requires
            0 <= a <= d - 1,
            b > 0;
    assert((a * b) / d <= b - 1) by (nonlinear_arith)
        requires
            0 <= a * b <= (d - 1) * b,
            b > 0,
            d > 0,
    {
        assert((d - 1) * b < d * b) by (nonlinear_arith)
            requires
                b > 0;
        assert(a * b < d * b);
    }
    assert(0 <= (a * b) / d) by (nonlinear_arith)
        requires
            a * b >= 0,
            d > 0;
    assert(0 * b == 0);
}

/// `map_to_range` keeps the order of its inputs: a larger input never maps to a smaller
/// output.
pub proof fn lemma_map_to_range_monotonic(x1: int, x2: int, in_min: int, in_max: int, out_min: int, out_max: int)
    requires
        in_min <= x1 <= x2,
        in_min <= in_max,
        out_min <= out_max,
    ensures
        map_to_range_spec(x1, in_min, in_max, out_min, out_max) <= map_to_range_spec(x2, in_min, in_max, out_min, out_max),
{
    let b = out_max - out_min + 1;
    let d = in_max - in_min + 1;
    let p1 = (x1 - in_min) * b;
    let p2 = (x2 - in_min) * b;
    assert(0 <= p1 <= p2) by (nonlinear_arith)
        requires
            p1 == (x1 - in_min) * b,
            p2 == (x2 - in_min) * b,
            0 <= x1 - in_min <= x2 - in_min,
            b > 0;
    vstd::arithmetic::div_mod::lemma_div_is_ordered(p1, p2, d);
}

/// When the output range is no wider than the input range, the highest input maps to the
/// highest output.
pub proof fn lemma_map_to_range_top(in_min: int, in_max: int, out_min: int, out_max: int)
    requires
        in_min <= in_max,
        out_min <= out_max,
        out_max - out_min <= in_max - in_min,
    ensures
        map_to_range_spec(in_max, in_min, in_max, out_min, out_max) == out_max,
{
    let b = out_max - out_min + 1;
    let d = in_max - in_min + 1;
    let p = (in_max - in_min) * b;
    assert(p == (b - 1) * d + (d - b)) by (nonlinear_arith)
        requires
            p == (in_max - in_min) * b,
            d == in_max - in_min + 1;
    assert(p >= 0) by (nonlinear_arith)
        requires
            p == (in_max - in_min) * b,
            in_max - in_min >= 0,
            b > 0;
    vstd::arithmetic::div_mod::lemma_fundamental_div_mod_converse(p, d, b - 1, d - b);
}

/// The vector a sequence keeps its steps in.
pub type StepVec = heapless::Vec<Option<Step>, 32>;

/// A sequence of steps; `None` is a rest.
#[derive(Debug)]
pub struct Sequence {
    pub steps: StepVec,
}

impl View for Sequence {
    type V = Seq<Option<Step>>;

    open spec fn view(&self) -> Seq<Option<Step>> {
        step_vec_contents(self.steps)
    }
}

/// `s` with its note replaced by `note`.
pub open spec fn step_with_note(s: Step, note: Note) -> Step {
    Step { note, ..s }
}

/// Two optional steps match when both are rests, or both play the same note.
pub open spec fn same_step(a: Option<Step>, b: Option<Step>) -> bool {
    match (a, b) {
        (None, None) => true,
        (Some(x), Some(y)) => x.note.value() == y.note.value(),
        _ => false,
    }
}

/// Two step lists match when they have the same length and match step by step.
pub open spec fn same_steps(a: Seq<Option<Step>>, b: Seq<Option<Step>>) -> bool {
    &&& a.len() == b.len()
    &&& forall|i: int| 0 <= i < a.len() ==> #[trigger] same_step(a[i], b[i])
}

/// `steps` with every step `i` below `mask.len()` for which `mask[i]` is false made a rest.
pub open spec fn masked_steps(steps: Seq<Option<Step>>, mask: Seq<bool>) -> Seq<Option<Step>> {
    Seq::new(
        steps.len(),
        |i: int|
            if i < mask.len() && !mask[i] {
                None
            } else {
                steps[i]
            },
    )
}

/// `steps` with the note of every non-rest step `i` replaced by `notes[i]`.
pub open spec fn steps_with_notes(steps: Seq<Option<Step>>, notes: Seq<Note>) -> Seq<Option<Step>> {
    Seq::new(
        steps.len(),
        |i: int|
            match steps[i] {
                Some(s) => Some(step_with_note(s, notes[i])),
                None => None,
            },
    )
}

impl Sequence {
    /// A sequence holding `steps`.
    pub fn new(steps: StepVec) -> (r: Sequence)
        ensures
            r@ == step_vec_contents(steps),
    {
        Sequence { steps }
    }

    /// Number of steps, rests included.
    pub fn len(&self) -> (r: usize)
        ensures
            r == self@.len(),
            r <= SEQUENCE_MAX_STEPS,
    {
        step_vec_as_slice(&self.steps).len()
    }

    /// The steps, in order.
    pub fn as_slice(&self) -> (r: &[Option<Step>])
        ensures
            r@ == self@,
            r@.len() <= SEQUENCE_MAX_STEPS,
    {
        step_vec_as_slice(&self.steps)
    }

    /// This sequence with its steps replaced by `steps`.
    pub fn set_steps(self, steps: StepVec) -> (r: Sequence)
        ensures
            r@ == step_vec_contents(steps),
    {
        let mut s = self;
        s.steps = steps;
        s
    }

    /// Rotate the steps `amount` places to the left: the first `amount` steps move to the end.
    pub fn rotate_left(self, amount: usize) -> (r: Sequence)
        requires
            amount <= self@.len(),
        ensures
            r@ == self@.skip(amount as int) + self@.take(amount as int),
    {
        let mut s = self;
        step_vec_rotate_left(&mut s.steps, amount);
        s
    }

    /// Rotate the steps `amount` places to the right: the last `amount` steps move to the front.
    pub fn rotate_right(self, amount: usize) -> (r: Sequence)
        requires
            amount <= self@.len(),
        ensures
            r@ == self@.skip(self@.len() - amount) + self@.take(self@.len() - amount),
    {
        let mut s = self;
        step_vec_rotate_right(&mut s.steps, amount);
        s
    }

    /// Replace the note of every step by `f` applied to it; rests stay rests.
    #[verifier::spinoff_prover]
    pub fn map_notes<F: Fn(Note) -> Note>(self, f: F) -> (r: Sequence)
        requires
            forall|i: int|
                0 <= i < self@.len() && #[trigger] self@[i] is Some ==> call_requires(
                    f,
                    (self@[i]->0.note,),
                ),
        ensures
            r@.len() == self@.len(),
            forall|i: int|
                0 <= i < self@.len() ==> match #[trigger] self@[i] {
                    None => r@[i] is None,
                    Some(s) => r@[i] matches Some(t) && t == step_with_note(s, t.note)
                        && call_ensures(f, (s.note,), t.note),
                },
    {
        let mut seq = self;
        let n = seq.len();
        let ghost orig = seq@;
        let mut i: usize = 0;
        while i < n
            invariant
                n == orig.len(),
                seq@.len() == n,
                0 <= i <= n,
                forall|j: int|
                    0 <= j < orig.len() && #[trigger] orig[j] is Some ==> call_requires(
                        f,
                        (orig[j]->0.note,),
                    ),
                forall|j: int| i <= j < n ==> #[trigger] seq@[j] == orig[j],
                forall|j: int|
                    0 <= j < i ==> match #[trigger] orig[j] {
                        None => seq@[j] is None,
                        Some(s) => seq@[j] matches Some(t) && t == step_with_note(s, t.note)
                            && call_ensures(f, (s.note,), t.note),
                    },
            decreases n - i,
        {
            let cur = seq.as_slice()[i];
            match cur {
                Some(s) => {
                    let new_note = f(s.note);
                    let new_step = Step { note: new_note, ..s };
                    step_vec_set(&mut seq.steps, i, Some(new_step));
                },
                None => {},
            }
            i = i + 1;
        }
        seq
    }

    /// Give the steps, in order, the notes of `notes`: step `i` gets `notes[i]`. Rests take no
    /// note but still use up theirs.
    #[verifier::spinoff_prover]
    pub fn set_notes(self, notes: &[Note]) -> (r: Sequence)
        requires
            forall|i: int| 0 <= i < self@.len() && #[trigger] self@[i] is Some ==> i < notes@.len(),
        ensures
            r@ == steps_with_notes(self@, notes@),
    {
        let mut seq = self;
        let n = seq.len();
        let ghost orig = seq@;
        let mut i: usize = 0;
        while i < n
            invariant
                n == orig.len(),
                seq@.len() == n,
                0 <= i <= n,
                forall|j: int| 0 <= j < orig.len() && #[trigger] orig[j] is Some ==> j < notes@.len(),
                forall|j: int| i <= j < n ==> #[trigger] seq@[j] == orig[j],
                forall|j: int| 0 <= j < i ==> #[trigger] seq@[j] == steps_with_notes(orig, notes@)[j],
            decreases n - i,
        {
            let cur = seq.as_slice()[i];
            match cur {
                Some(s) => {
                    let new_step = Step { note: notes[i], ..s };
                    step_vec_set(&mut seq.steps, i, Some(new_step));
                },
                None => {},
            }
            i = i + 1;
        }
        assert(seq@ =~= steps_with_notes(orig, notes@));
        seq
    }

    /// Make a rest of every step `i` for which `step_mask[i]` is false. Steps beyond the end of
    /// the mask are kept.
    #[verifier::spinoff_prover]
    pub fn mask_steps(self, step_mask: &[bool]) -> (r: Sequence)
        ensures
            r@ == masked_steps(self@, step_mask@),
    {
        let mut seq = self;
        let n = seq.len();
        let ghost orig = seq@;
        let mut i: usize = 0;
        while i < n && i < step_mask.len()
            invariant
                n == orig.len(),
                seq@.len() == n,
                0 <= i <= n,
                forall|j: int| i <= j < n ==> #[trigger] seq@[j] == orig[j],
                forall|j: int| 0 <= j < i ==> #[trigger] seq@[j] == masked_steps(orig, step_mask@)[j],
            decreases n - i,
        {
            if !step_mask[i] {
                step_vec_set(&mut seq.steps, i, None);
            }
            i = i + 1;
        }
        assert(seq@ =~= masked_steps(orig, step_mask@));
        seq
    }
}

impl Clone for Sequence {
    fn clone(&self) -> (r: Sequence)
        ensures
            r@ == self@,
    {
        Sequence { steps: step_vec_clone(&self.steps) }
    }
}

impl PartialEq for Sequence {
    /// Sequences are equal when they have the same length and the same rests and notes.
    fn eq(&self, other: &Sequence) -> (r: bool) {
        let a = self.as_slice();
        let b = other.as_slice();
        if a.len() != b.len() {
            return false;
        }
        let mut i: usize = 0;
        while i < a.len()
            invariant
                a@ == self@,
                b@ == other@,
                a@.len() == b@.len(),
                0 <= i <= a@.len(),
                forall|j: int| 0 <= j < i ==> #[trigger] same_step(a@[j], b@[j]),
            decreases a@.len() - i,
        {
            let same = match (a[i], b[i]) {
                (None, None) => true,
                (Some(x), Some(y)) => x.note.number() == y.note.number(),
                _ => false,
            };
            if !same {
                assert(!same_step(a@[i as int], b@[i as int]));
                return false;
            }
            i = i + 1;
        }
        true
    }
}

impl PartialEqSpecImpl for Sequence {
    open spec fn obeys_eq_spec() -> bool {
        true
    }

    open spec fn eq_spec(&self, other: &Sequence) -> bool {
        same_steps(self@, other@)
    }
}


/// The length of a step, as a note value.
#[derive(Clone, Copy, Debug, PartialEq, Eq, Structural)]
pub enum TimeDivision {
    ThirtySecond,
    Sixteenth,
    Eigth,
    Quarter,
    Whole,
}

impl TimeDivision {
    /// The division's position in the list of divisions, from 0 (`ThirtySecond`) to 4
    /// (`Whole`).
    pub open spec fn index(self) -> u8 {
        match self {
            TimeDivision::ThirtySecond => 0,
            TimeDivision::Sixteenth => 1,
            TimeDivision::Eigth => 2,
            TimeDivision::Quarter => 3,
            TimeDivision::Whole => 4,
        }
    }

    /// The division at position `value` in the list of divisions.
    pub open spec fn from_index(value: u8) -> Option<TimeDivision> {
        if value == 0 {
            Some(TimeDivision::ThirtySecond)
        } else if value == 1 {
            Some(TimeDivision::Sixteenth)
        } else if value == 2 {
            Some(TimeDivision::Eigth)
        } else if value == 3 {
            Some(TimeDivision::Quarter)
        } else if value == 4 {
            Some(TimeDivision::Whole)
        } else {
            None
        }
    }

    /// Number of MIDI clock ticks in one step of this division, at 24 ticks per quarter note.
    pub open spec fn ticks(self) -> u8 {
        match self {
            TimeDivision::ThirtySecond => 3,
            TimeDivision::Sixteenth => 6,
            TimeDivision::Eigth => 12,
            TimeDivision::Quarter => 24,
            TimeDivision::Whole => 96,
        }
    }

    /// The division's position in the list of divisions.
    pub fn to_u8(self) -> (r: u8)
        ensures
            r == self.index(),
    {
        match self {
            TimeDivision::ThirtySecond => 0,
            TimeDivision::Sixteenth => 1,
            TimeDivision::Eigth => 2,
            TimeDivision::Quarter => 3,
            TimeDivision::Whole => 4,
        }
    }

    /// The division named `id` ("1/32", "1/16", "1/8", "1/4" or "1"); sixteenths for any other
    /// name.
    pub fn from_id(id: &str) -> (r: TimeDivision)
        ensures
            r == (if id@ == "1/32"@ {
                TimeDivision::ThirtySecond
            } else if id@ == "1/16"@ {
                TimeDivision::Sixteenth
            } else if id@ == "1/8"@ {
                TimeDivision::Eigth
            } else if id@ == "1/4"@ {
                TimeDivision::Quarter
            } else if id@ == "1"@ {
                TimeDivision::Whole
            } else {
                TimeDivision::Sixteenth
            }),
    {
        if crate::text::str_eq(id, "1/32") {
            TimeDivision::ThirtySecond
        } else if crate::text::str_eq(id, "1/16") {
            TimeDivision::Sixteenth
        } else if crate::text::str_eq(id, "1/8") {
            TimeDivision::Eigth
        } else if crate::text::str_eq(id, "1/4") {
            TimeDivision::Quarter
        } else if crate::text::str_eq(id, "1") {
            TimeDivision::Whole
        } else {
            TimeDivision::Sixteenth
        }
    }

    /// Number of MIDI clock ticks in one step of `time_div`, at 24 ticks per quarter note.
    pub fn division_length_24ppqn(time_div: TimeDivision) -> (r: u8)
        ensures
            r == time_div.ticks(),
            r > 0,
    {
        match time_div {
            TimeDivision::ThirtySecond => 3,
            TimeDivision::Sixteenth => 6,
            TimeDivision::Eigth => 12,
            TimeDivision::Quarter => 24,
            TimeDivision::Whole => 96,
        }
    }

    /// All the time divisions, from the shortest to the longest.
    pub fn all_variants() -> (r: heapless::Vec<TimeDivision, 5>)
        ensures
            crate::storage::division_vec_contents(r) == seq![
                TimeDivision::ThirtySecond,
                TimeDivision::Sixteenth,
                TimeDivision::Eigth,
                TimeDivision::Quarter,
                TimeDivision::Whole,
            ],
    {
        let mut v = crate::storage::division_vec_new();
        crate::storage::division_vec_push(&mut v, TimeDivision::ThirtySecond);
        crate::storage::division_vec_push(&mut v, TimeDivision::Sixteenth);
        crate::storage::division_vec_push(&mut v, TimeDivision::Eigth);
        crate::storage::division_vec_push(&mut v, TimeDivision::Quarter);
        crate::storage::division_vec_push(&mut v, TimeDivision::Whole);
        assert(crate::storage::division_vec_contents(v) =~= seq![
            TimeDivision::ThirtySecond,
            TimeDivision::Sixteenth,
            TimeDivision::Eigth,
            TimeDivision::Quarter,
            TimeDivision::Whole,
        ]);
        v
    }

    /// Name of the division, as shown on the display.
    pub open spec fn display_name(self) -> Seq<char> {
        match self {
            TimeDivision::ThirtySecond => "1/32"@,
            TimeDivision::Sixteenth => "1/16"@,
            TimeDivision::Eigth => "1/8"@,
            TimeDivision::Quarter => "1/4"@,
            TimeDivision::Whole => "1"@,
        }
    }

    /// The name is short ASCII text: at most six characters.
    pub proof fn lemma_display_name_short(self)
        ensures
            self.display_name().len() <= 6,
            vstd::utf8::is_ascii_chars(self.display_name()),
    {
        match self {
            TimeDivision::ThirtySecond => reveal_strlit("1/32"),
            TimeDivision::Sixteenth => reveal_strlit("1/16"),
            TimeDivision::Eigth => reveal_strlit("1/8"),
            TimeDivision::Quarter => reveal_strlit("1/4"),
            TimeDivision::Whole => reveal_strlit("1"),
        }
    }

    /// Name of the division, as shown on the display.
    pub fn name(&self) -> (r: &'static str)
        ensures
            r@ == self.display_name(),
    {
        match self {
            TimeDivision::ThirtySecond => "1/32",
            TimeDivision::Sixteenth => "1/16",
            TimeDivision::Eigth => "1/8",
            TimeDivision::Quarter => "1/4",
            TimeDivision::Whole => "1",
        }
    }

    /// Name of the division, as shown on the display.
    pub fn to_string(&self) -> (r: String)
        ensures
            r@ == match *self {
                TimeDivision::ThirtySecond => "1/32"@,
                TimeDivision::Sixteenth => "1/16"@,
                TimeDivision::Eigth => "1/8"@,
                TimeDivision::Quarter => "1/4"@,
                TimeDivision::Whole => "1"@,
            },
    {
        self.name().to_owned()
    }
}

impl Default for TimeDivision {
    fn default() -> (r: TimeDivision)
        ensures
            r == TimeDivision::Sixteenth,
    {
        TimeDivision::Sixteenth
    }
}

impl TryFrom<u8> for TimeDivision {
    type Error = ();

    /// The division at position `value` in the list of divisions; fails past `Whole`.
    fn try_from(value: u8) -> (r: Result<TimeDivision, ()>) {
        if value == 0 {
            Ok(TimeDivision::ThirtySecond)
        } else if value == 1 {
            Ok(TimeDivision::Sixteenth)
        } else if value == 2 {
            Ok(TimeDivision::Eigth)
        } else if value == 3 {
            Ok(TimeDivision::Quarter)
        } else if value == 4 {
            Ok(TimeDivision::Whole)
        } else {
            Err(())
        }
    }
}

impl TryFromSpecImpl<u8> for TimeDivision {
    open spec fn obeys_try_from_spec() -> bool {
        true
    }

    open spec fn try_from_spec(v: u8) -> Result<TimeDivision, ()> {
        match TimeDivision::from_index(v) {
            Some(t) => Ok(t),
            None => Err(()),
        }
    }
}


/// A track: a sequence, how fast it plays, how much of it plays, and the MIDI channel it plays
/// on; with the parameters that the user edits.
#[derive(Debug)]
pub struct Track {
    pub time_division: TimeDivision,
    /// Number of steps that play, from the start of the sequence.
    pub length: u8,
    /// MIDI channel, 0 based.
    pub midi_channel: u8,
    pub sequence: Sequence,
    pub params: ParamList,
}

/// The value of parameter `i`, when the list has one.
pub open spec fn param_value(params: ParamList, i: int) -> Option<ParamValue> {
    if 0 <= i < params_of(params).len() {
        Some(params_of(params)[i].spec_value())
    } else {
        None
    }
}

/// The six parameters a new track starts with, by name, value and range: RHYTHM (rhythm
/// machine, `Unit` to `Euclid`, at `Euclid`), LEN (1 to 32 steps, at 8), TRACK (1 to 16, at
/// 1), MELODY (melody machine, `Unit` to `Rand`, at `Rand`), SPD (thirty-seconds to whole
/// notes, at sixteenths) and CHAN (MIDI channel 1 to 16, at 1).
pub open spec fn new_track_params(p: Seq<Param>) -> bool {
    &&& p.len() == 6
    &&& p[0].spec_name() == "RHYTHM"@
    &&& p[0].spec_value() == ParamValue::RhythmMachineId(crate::machine::RhythmMachineId::Euclid)
    &&& p[0].spec_min() == ParamValue::RhythmMachineId(crate::machine::RhythmMachineId::Unit)
    &&& p[0].spec_max() == ParamValue::RhythmMachineId(crate::machine::RhythmMachineId::Euclid)
    &&& p[1].spec_name() == "LEN"@
    &&& p[1].spec_value() == ParamValue::Number(TRACK_DEFAULT_LENGTH)
    &&& p[1].spec_min() == ParamValue::Number(TRACK_MIN_LENGTH)
    &&& p[1].spec_max() == ParamValue::Number(TRACK_MAX_LENGTH)
    &&& p[2].spec_name() == "TRACK"@
    &&& p[2].spec_value() == ParamValue::Number(TRACK_MIN_NUM)
    &&& p[2].spec_min() == ParamValue::Number(TRACK_MIN_NUM)
    &&& p[2].spec_max() == ParamValue::Number(TRACK_COUNT as u8)
    &&& p[3].spec_name() == "MELODY"@
    &&& p[3].spec_value() == ParamValue::MelodyMachineId(crate::machine::MelodyMachineId::Rand)
    &&& p[3].spec_min() == ParamValue::MelodyMachineId(crate::machine::MelodyMachineId::Unit)
    &&& p[3].spec_max() == ParamValue::MelodyMachineId(crate::machine::MelodyMachineId::Rand)
    &&& p[4].spec_name() == "SPD"@
    &&& p[4].spec_value() == ParamValue::TimeDivision(TimeDivision::Sixteenth)
    &&& p[4].spec_min() == ParamValue::TimeDivision(TimeDivision::ThirtySecond)
    &&& p[4].spec_max() == ParamValue::TimeDivision(TimeDivision::Whole)
    &&& p[5].spec_name() == "CHAN"@
    &&& p[5].spec_value() == ParamValue::Number(MIDI_MIN_CHANNEL)
    &&& p[5].spec_min() == ParamValue::Number(MIDI_MIN_CHANNEL)
    &&& p[5].spec_max() == ParamValue::Number(MIDI_MAX_CHANNEL)
}

impl Track {
    /// Whether a step starts on MIDI clock tick `tick`.
    pub open spec fn plays_on_tick(self, tick: u32) -> bool {
        (tick as int) % (self.time_division.ticks() as int) == 0
    }

    /// The number of the step that plays on tick `tick`: steps advance every time division and
    /// wrap around after `length` steps.
    pub open spec fn spec_step_num(self, tick: u32) -> int {
        ((tick as int) / (self.time_division.ticks() as int)) % (self.length as int)
    }

    /// Whether `step_at_tick(tick)` can look up its step: when a step starts on the tick, the
    /// track has a length and the step is in the sequence.
    pub open spec fn has_step_at(self, tick: u32) -> bool {
        self.plays_on_tick(tick) ==> self.length > 0 && self.spec_step_num(tick) < self@.len()
    }

    /// The steps of the track's sequence.
    pub open spec fn view(self) -> Seq<Option<Step>> {
        self.sequence@
    }

    /// The step that starts on tick `tick`, if any: none between steps or on a rest.
    pub open spec fn spec_step_at_tick(self, tick: u32) -> Option<Step> {
        if self.plays_on_tick(tick) {
            self@[self.spec_step_num(tick)]
        } else {
            None
        }
    }

    /// The parameters of a new track: rhythm machine, length (1 to 32 steps, 8), track number
    /// (1 to 16), melody machine, time division and MIDI channel (1 to 16).
    fn param_defintions() -> (r: ParamList)
        ensures
            new_track_params(params_of(r)),
    {
        let mut params = param_list_new();
        proof {
            reveal_strlit("RHYTHM");
            reveal_strlit("LEN");
            reveal_strlit("TRACK");
            reveal_strlit("MELODY");
            reveal_strlit("SPD");
            reveal_strlit("CHAN");
            crate::text::lemma_ascii_len("RHYTHM");
            crate::text::lemma_ascii_len("LEN");
            crate::text::lemma_ascii_len("TRACK");
            crate::text::lemma_ascii_len("MELODY");
            crate::text::lemma_ascii_len("SPD");
            crate::text::lemma_ascii_len("CHAN");
        }
        param_list_push(&mut params, Param::new_rhythm_machine_id_param("RHYTHM"));
        param_list_push(
            &mut params,
            Param::new_number_param("LEN", TRACK_MIN_LENGTH, TRACK_MAX_LENGTH, TRACK_DEFAULT_LENGTH),
        );
        param_list_push(&mut params, Param::new_number_param("TRACK", TRACK_MIN_NUM, 16, TRACK_MIN_NUM));
        param_list_push(&mut params, Param::new_melody_machine_id_param("MELODY"));
        param_list_push(&mut params, Param::new_time_division_param("SPD"));
        param_list_push(
            &mut params,
            Param::new_number_param("CHAN", MIDI_MIN_CHANNEL, MIDI_MAX_CHANNEL, MIDI_MIN_CHANNEL),
        );
        params
    }

    /// What `apply_params` copies from `params`: the length (parameter 1), the time division
    /// (parameter 4) and the MIDI channel (parameter 5, numbered from 1 as the track page shows
    /// it, kept numbered from 0), in that order, stopping at the first parameter that holds a
    /// value of the wrong kind or a channel outside 1 to 16; and whether all three were copied.
    pub open spec fn applied_params(self, params: Seq<Param>) -> (u8, TimeDivision, u8, bool) {
        match (params[1].spec_value(), params[4].spec_value(), params[5].spec_value()) {
            (ParamValue::Number(len), ParamValue::TimeDivision(td), ParamValue::Number(chan)) => {
                if MIDI_MIN_CHANNEL <= chan <= MIDI_MAX_CHANNEL {
                    (len, td, (chan - 1) as u8, true)
                } else {
                    (len, td, self.midi_channel, false)
                }
            },
            (ParamValue::Number(len), ParamValue::TimeDivision(td), _) => (len, td, self.midi_channel, false),
            (ParamValue::Number(len), _, _) => (len, self.time_division, self.midi_channel, false),
            _ => (self.length, self.time_division, self.midi_channel, false),
        }
    }

    /// The track's parameters.
    pub fn params(&self) -> (r: &ParamList)
        ensures
            *r == self.params,
    {
        &self.params
    }

    /// The track's parameters, to change in place.
    pub fn params_mut(&mut self) -> (r: &mut ParamList)
        ensures
            *r == old(self).params,
            final(self).params == *final(r),
            final(self).time_division == old(self).time_division,
            final(self).length == old(self).length,
            final(self).midi_channel == old(self).midi_channel,
            final(self).sequence == old(self).sequence,
    {
        &mut self.params
    }

    /// Copy the length (parameter 1), time division (parameter 4) and MIDI channel (parameter
    /// 5) from the parameters into the track, in that order. The channel parameter counts from
    /// 1 as MIDI channels are shown (CHAN 1 is MIDI channel 1); the track keeps it counted from
    /// 0, as `Track::default` does. Parameters 0, 2 and 3 (the machines and the track number)
    /// don't belong to the track. Stops at the first parameter that holds a value of the wrong
    /// kind, or a channel outside 1 to 16, with an error; those before it are copied.
    pub fn apply_params(&mut self) -> (r: Result<(), ParamError>)
        requires
            params_of(old(self).params).len() >= 6,
        ensures
            final(self).params == old(self).params,
            final(self).sequence == old(self).sequence,
            ({
                let a = old(self).applied_params(params_of(old(self).params));
                &&& final(self).length == a.0
                &&& final(self).time_division == a.1
                &&& final(self).midi_channel == a.2
                &&& a.3 ==> r is Ok
                &&& !a.3 ==> r == Err::<(), ParamError>(ParamError::ValueError)
            }),
    {
        self.length = u8::try_from(param_list_get(&self.params, 1).value())?;
        self.time_division = TimeDivision::try_from(param_list_get(&self.params, 4).value())?;
        let channel_num: u8 = u8::try_from(param_list_get(&self.params, 5).value())?;
        if channel_num < MIDI_MIN_CHANNEL || channel_num > MIDI_MAX_CHANNEL {
            return Err(ParamError::ValueError);
        }
        self.midi_channel = channel_num - 1;
        Ok(())
    }

    /// Whether a step starts on MIDI clock tick `tick`: steps start every time division.
    pub fn should_play_on_tick(&self, tick: u32) -> (r: bool)
        ensures
            r == self.plays_on_tick(tick),
    {
        tick % (TimeDivision::division_length_24ppqn(self.time_division) as u32) == 0
    }

    /// The number of the step that plays on tick `tick`: steps advance every time division and
    /// wrap around after `length` steps.
    pub fn step_num(&self, tick: u32) -> (r: u8)
        requires
            self.length > 0,
        ensures
            r == self.spec_step_num(tick),
            r < self.length,
    {
        (tick / (TimeDivision::division_length_24ppqn(self.time_division) as u32) % self.length as u32) as u8
    }

    /// The step that starts on tick `tick`: none between steps or on a rest.
    pub fn step_at_tick(&self, tick: u32) -> (r: Option<&Step>)
        requires
            self.has_step_at(tick),
        ensures
            match r {
                Some(s) => self.spec_step_at_tick(tick) == Some(*s),
                None => self.spec_step_at_tick(tick) is None,
            },
    {
        if !self.should_play_on_tick(tick) {
            return None;
        }
        let i = self.step_num(tick) as usize;
        match &self.sequence.as_slice()[i] {
            Some(s) => Some(s),
            None => None,
        }
    }
}

impl Default for Track {
    /// An 8 step track of sixteenths on MIDI channel 0, holding the initial sequence.
    fn default() -> (r: Track)
        ensures
            r.time_division == TimeDivision::Sixteenth,
            r.length == TRACK_DEFAULT_LENGTH,
            r.midi_channel == 0,
            r@ == initial_steps(TRACK_DEFAULT_LENGTH as nat),
            new_track_params(params_of(r.params)),
    {
        let length = TRACK_DEFAULT_LENGTH;
        let sequence = SequenceGenerator::initial_sequence(length);
        let params = Track::param_defintions();
        Track { time_division: TimeDivision::default(), length, midi_channel: 0, sequence, params }
    }
}

/// Rotating the steps left by `amount` and then right by the same amount gives back the steps.
pub proof fn lemma_rotate_round_trip(steps: Seq<Option<Step>>, amount: int)
    requires
        0 <= amount <= steps.len(),
    ensures
        ({
            let left = steps.skip(amount) + steps.take(amount);
            left.skip(left.len() - amount) + left.take(left.len() - amount) == steps
        }),
{
    let left = steps.skip(amount) + steps.take(amount);
    assert(left.skip(left.len() - amount) + left.take(left.len() - amount) =~= steps);
}

/// A track loops: after `length` steps (`length` times its time division, in clock ticks) it
/// plays the same step again.
pub proof fn lemma_track_loops(track: Track, tick: u32)
    requires
        track.length > 0,
        tick + track.length * track.time_division.ticks() <= u32::MAX,
    ensures
        track.spec_step_at_tick((tick + track.length * track.time_division.ticks()) as u32)
            == track.spec_step_at_tick(tick),
{
    let t = track.time_division.ticks() as int;
    let len = track.length as int;
    let a = tick as int;
    let later = (tick + track.length * track.time_division.ticks()) as u32;
    assert(later as int == a + len * t);
    assert(t > 0);
    vstd::arithmetic::div_mod::lemma_mod_multiples_vanish(len, a, t);
    assert((t * len + a) % t == a % t);
    assert(t * len + a == a + len * t) by (nonlinear_arith);
    vstd::arithmetic::div_mod::lemma_hoist_over_denominator(a, len, t as nat);
    assert(a / t + len == (a + len * t) / t);
    vstd::arithmetic::div_mod::lemma_mod_multiples_vanish(1, a / t, len);
    assert(len * 1 + a / t == a / t + len);
    assert(track.spec_step_num(later) == track.spec_step_num(tick));
}

} // verus!
