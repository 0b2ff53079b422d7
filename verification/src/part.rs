//! Parts: masks that keep some sections of a sequence and silence the rest, to build call and
//! response, ABAC structures, hooks and turnarounds out of one sequence.
use crate::storage::{mask_contents, mask_new, mask_push};
use crate::SEQUENCE_MAX_STEPS;
use vstd::prelude::*;
use vstd::std_specs::convert::TryFromSpecImpl;

verus! {

/// Which sections of a sequence play.
#[derive(Clone, Copy, Debug, PartialEq, Eq, Structural)]
pub enum Part {
    /// The whole sequence.
    Sequence,
    /// The first half.
    Call,
    /// The second half.
    Response,
    /// The first and third quarters: `A_A_`.
    A,
    /// The second quarter: `_B__`.
    B,
    /// The last quarter: `___C`.
    C,
    /// All but the last eighth.
    Hook,
    /// The last eighth.
    Turnaround,
}

/// A step mask: one flag per step, true where the step plays.
pub type StepMask = heapless::Vec<bool, 32>;

/// Whether step `i` of a `len` step sequence plays in `part`.
pub open spec fn part_mask_bit(part: Part, len: int, i: int) -> bool {
    match part {
        Part::Sequence => true,
        Part::Call => i < len / 2,
        Part::Response => i >= len / 2,
        Part::A => i < len / 4 || (2 * (len / 4) <= i < 3 * (len / 4)),
        Part::B => len / 4 <= i < 2 * (len / 4),
        Part::C => i >= len / 4 * 3,
        Part::Hook => i < len / 8 * 7,
        Part::Turnaround => i >= len / 8 * 7,
    }
}

/// The mask of `part` for a `len` step sequence.
pub open spec fn part_mask(part: Part, len: int) -> Seq<bool> {
    Seq::new(len as nat, |i: int| part_mask_bit(part, len, i))
}

impl Part {
    /// The part's position in the list of parts, from 0 (`Sequence`) to 7 (`Turnaround`).
    pub open spec fn index(self) -> u8 {
        match self {
            Part::Sequence => 0,
            Part::Call => 1,
            Part::Response => 2,
            Part::A => 3,
            Part::B => 4,
            Part::C => 5,
            Part::Hook => 6,
            Part::Turnaround => 7,
        }
    }

    /// The part at position `value` in the list of parts.
    pub open spec fn from_index(value: u8) -> Option<Part> {
        if value == 0 { Some(Part::Sequence) }
        else if value == 1 { Some(Part::Call) }
        else if value == 2 { Some(Part::Response) }
        else if value == 3 { Some(Part::A) }
        else if value == 4 { Some(Part::B) }
        else if value == 5 { Some(Part::C) }
        else if value == 6 { Some(Part::Hook) }
        else if value == 7 { Some(Part::Turnaround) }
        else { None }
    }

    /// The part's position in the list of parts.
    pub fn to_u8(self) -> (r: u8)
        ensures
            r == self.index(),
    {
        match self {
            Part::Sequence => 0,
            Part::Call => 1,
            Part::Response => 2,
            Part::A => 3,
            Part::B => 4,
            Part::C => 5,
            Part::Hook => 6,
            Part::Turnaround => 7,
        }
    }

    /// Name of the part, as shown on the display.
    pub open spec fn display_name(self) -> Seq<char> {
        match self {
            Part::Sequence => "SEQ"@,
            Part::Call => "CALL"@,
            Part::Response => "RESP"@,
            Part::A => "A_A_"@,
            Part::B => "_B__"@,
            Part::C => "___C"@,
            Part::Hook => "HOOK"@,
            Part::Turnaround => "TURN"@,
        }
    }

    /// The name is short ASCII text: at most six characters.
    pub proof fn lemma_display_name_short(self)
        ensures
            self.display_name().len() <= 6,
            vstd::utf8::is_ascii_chars(self.display_name()),
    {
        match self {
            Part::Sequence => reveal_strlit("SEQ"),
            Part::Call => reveal_strlit("CALL"),
            Part::Response => reveal_strlit("RESP"),
            Part::A => reveal_strlit("A_A_"),
            Part::B => reveal_strlit("_B__"),
            Part::C => reveal_strlit("___C"),
            Part::Hook => reveal_strlit("HOOK"),
            Part::Turnaround => reveal_strlit("TURN"),
        }
    }

    /// Name of the part, as shown on the display.
    pub fn name(&self) -> (r: &'static str)
        ensures
            r@ == self.display_name(),
    {
        match self {
            Part::Sequence => "SEQ",
            Part::Call => "CALL",
            Part::Response => "RESP",
            Part::A => "A_A_",
            Part::B => "_B__",
            Part::C => "___C",
            Part::Hook => "HOOK",
            Part::Turnaround => "TURN",
        }
    }

    /// The mask of `part` for a sequence of `mask_len` steps: one flag per step, true where the
    /// step plays.
    #[verifier::spinoff_prover]
    pub fn new_mask(part: Part, mask_len: usize) -> (r: StepMask)
        requires
            mask_len <= SEQUENCE_MAX_STEPS,
        ensures
            mask_contents(r) == part_mask(part, mask_len as int),
    {
        let quarter = mask_len / 4;
        let half = mask_len / 2;
        let seven_eighths = mask_len / 8 * 7;
        let mut mask = mask_new();
        let mut i: usize = 0;
        while i < mask_len
            invariant
                mask_len <= 32,
                quarter == mask_len / 4,
                half == mask_len / 2,
                seven_eighths == mask_len / 8 * 7,
                0 <= i <= mask_len,
                mask_contents(mask) == part_mask(part, mask_len as int).take(i as int),
            decreases mask_len - i,
        {
            let bit = match part {
                Part::Sequence => true,
                Part::Call => i < half,
                Part::Response => i >= half,
                Part::A => i < quarter || (2 * quarter <= i && i < 3 * quarter),
                Part::B => quarter <= i && i < 2 * quarter,
                Part::C => i >= quarter * 3,
                Part::Hook => i < seven_eighths,
                Part::Turnaround => i >= seven_eighths,
            };
            mask_push(&mut mask, bit);
            assert(part_mask(part, mask_len as int).take(i + 1) =~= part_mask(
                part,
                mask_len as int,
            ).take(i as int).push(bit));
            i = i + 1;
        }
        assert(part_mask(part, mask_len as int).take(mask_len as int) =~= part_mask(
            part,
            mask_len as int,
        ));
        mask
    }
}

impl Default for Part {
    fn default() -> (r: Part)
        ensures
            r == Part::Sequence,
    {
        Part::Sequence
    }
}

impl TryFrom<u8> for Part {
    type Error = ();

    /// The part at position `value` in the list of parts; fails past `Turnaround`.
    fn try_from(value: u8) -> (r: Result<Part, ()>) {
        if value == 0 { Ok(Part::Sequence) }
        else if value == 1 { Ok(Part::Call) }
        else if value == 2 { Ok(Part::Response) }
        else if value == 3 { Ok(Part::A) }
        else if value == 4 { Ok(Part::B) }
        else if value == 5 { Ok(Part::C) }
        else if value == 6 { Ok(Part::Hook) }
        else if value == 7 { Ok(Part::Turnaround) }
        else { Err(()) }
    }
}

impl TryFromSpecImpl<u8> for Part {
    open spec fn obeys_try_from_spec() -> bool {
        true
    }

    open spec fn try_from_spec(v: u8) -> Result<Part, ()> {
        match Part::from_index(v) {
            Some(p) => Ok(p),
            None => Err(()),
        }
    }
}


/// Call and response split a sequence: every step plays in exactly one of them. The same holds
/// of hook and turnaround.
pub proof fn lemma_call_response_partition(len: int, i: int)
    requires
        0 <= len,
        0 <= i < len,
    ensures
        part_mask_bit(Part::Call, len, i) != part_mask_bit(Part::Response, len, i),
        part_mask_bit(Part::Hook, len, i) != part_mask_bit(Part::Turnaround, len, i),
{
}

/// `A`, `B` and `C` split a sequence: every step plays in exactly one of them.
pub proof fn lemma_abc_partition(len: int, i: int)
    requires
        0 <= len,
        0 <= i < len,
    ensures
        (part_mask_bit(Part::A, len, i) as int) + (part_mask_bit(Part::B, len, i) as int) + (
        part_mask_bit(Part::C, len, i) as int) == 1,
{
}

} // verus!
