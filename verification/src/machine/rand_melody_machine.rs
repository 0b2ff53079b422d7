//! Machine which gives each step a random note within a range.
use crate::machine::Machine;
use crate::machine_resources::MachineResources;
use crate::midi::Note;
use crate::param::{params_of, Param, ParamList, ParamValue};
use crate::storage::{param_list_get, param_list_new, param_list_push};
use crate::{map_to_range, map_to_range_spec, step_with_note, Sequence, Step};
use crate::storage::step_vec_set;
use vstd::prelude::*;

verus! {

/// Number of notes (steps that are not rests) in `steps`.
pub open spec fn note_count(steps: Seq<Option<Step>>) -> nat
    decreases steps.len(),
{
    if steps.len() == 0 {
        0
    } else {
        note_count(steps.drop_last()) + if steps.last() is Some {
            1nat
        } else {
            0nat
        }
    }
}

/// There are no more notes than steps.
pub proof fn lemma_note_count_bound(steps: Seq<Option<Step>>)
    ensures
        note_count(steps) <= steps.len(),
    decreases steps.len(),
{
    if steps.len() > 0 {
        lemma_note_count_bound(steps.drop_last());
    }
}

/// The note number given to the `k`th note: seven bits of `rand`, starting at bit `k`, mapped
/// onto `root..=root + range - 1`.
pub open spec fn rand_melody_note(rand: u64, k: nat, root: int, range: int) -> int {
    map_to_range_spec(((rand >> (k as u64)) & 127u64) as int, 0, 127, root, root + range - 1)
}

/// `steps` with random notes from `rand`: the `k`th note gets `rand_melody_note(rand, k, ..)`;
/// rests stay rests.
pub open spec fn rand_melody_steps(steps: Seq<Option<Step>>, rand: u64, root: int, range: int) -> Seq<
    Option<Step>,
> {
    Seq::new(
        steps.len(),
        |i: int|
            match steps[i] {
                None => None,
                Some(s) => Some(
                    step_with_note(
                        s,
                        Note::from_value(
                            rand_melody_note(rand, note_count(steps.take(i)), root, range) as u8,
                        ),
                    ),
                ),
            },
    )
}

/// True when the notes `root..=root + range - 1` are MIDI notes (an empty range means `root`).
pub open spec fn rand_melody_range_ok(root: int, range: int) -> bool {
    root + range >= 1 && root + range - 1 <= 127
}

/// Mapping a seven bit number onto `lo..=lo + width - 1` lands in that range (on `lo` when the
/// width is zero).
pub proof fn lemma_map_seven_bits(x: int, lo: int, width: int)
    requires
        0 <= x <= 127,
        width >= 0,
    ensures
        lo <= map_to_range_spec(x, 0, 127, lo, lo + width - 1),
        width == 0 ==> map_to_range_spec(x, 0, 127, lo, lo + width - 1) == lo,
        width > 0 ==> map_to_range_spec(x, 0, 127, lo, lo + width - 1) <= lo + width - 1,
{
    assert((x - 0) * ((lo + width - 1) - lo + 1) == x * width);
    assert(0 <= x * width <= 127 * width) by (nonlinear_arith)
        requires 0 <= x <= 127, width >= 0;
    assert(map_to_range_spec(x, 0, 127, lo, lo + width - 1) == (x * width) / 128 + lo);
    assert((x * width) / 128 >= 0) by (nonlinear_arith)
        requires x * width >= 0;
    if width > 0 {
        assert((x * width) / 128 < width) by (nonlinear_arith)
            requires 0 <= x * width <= 127 * width, width > 0;
    } else {
        assert(x * width == 0);
    }
}

/// Takes notes for a sequence from the bits of a random number.
#[derive(Clone, Copy, Debug)]
pub struct RandMelodyProcessor {}

impl RandMelodyProcessor {
    /// A processor; it holds no state.
    pub fn new() -> (r: RandMelodyProcessor) {
        RandMelodyProcessor {}
    }

    /// Give the notes of `sequence` random notes from `root` to `root + range - 1`, taken from
    /// the bits of `rand`; rests stay rests.
    #[verifier::spinoff_prover]
    pub fn apply_with_rand(&self, sequence: Sequence, rand: u64, root: Note, range: u8) -> (r: Sequence)
        requires
            rand_melody_range_ok(root.value() as int, range as int),
        ensures
            r@ == rand_melody_steps(sequence@, rand, root.value() as int, range as int),
            forall|i: int|
                0 <= i < r@.len() && #[trigger] r@[i] is Some ==> root.value() <= r@[i]->0.note.value()
                    <= root.value() + if range > 0 {
                    range - 1
                } else {
                    0
                },
    {
        let mut seq = sequence;
        let root_note: u8 = root.number();
        let max_note: u8 = root_note + range - 1;
        let n = seq.len();
        let ghost orig = seq@;
        let ghost target = rand_melody_steps(orig, rand, root_note as int, range as int);
        let mut read_start_bit: u32 = 0;
        let mut i: usize = 0;
        while i < n
            invariant
                n == orig.len(),
                seq@.len() == n,
                0 <= i <= n,
                n <= 32,
                root_note == root.value(),
                root_note <= 127,
                max_note == root_note + range - 1,
                rand_melody_range_ok(root_note as int, range as int),
                target == rand_melody_steps(orig, rand, root_note as int, range as int),
                read_start_bit == note_count(orig.take(i as int)),
                read_start_bit <= i,
                forall|j: int| i <= j < n ==> #[trigger] seq@[j] == orig[j],
                forall|j: int| 0 <= j < i ==> #[trigger] seq@[j] == target[j],
            decreases n - i,
        {
            assert(orig.take(i + 1).drop_last() =~= orig.take(i as int));
            let cur = seq.as_slice()[i];
            match cur {
                Some(s) => {
                    let bits: u64 = (rand >> read_start_bit) & 127;
                    assert(bits == ((rand >> (read_start_bit as u64)) & 127u64) && bits <= 127) by (bit_vector)
                        requires
                            bits == (rand >> read_start_bit) & 127,
                            read_start_bit < 64;
                    let note_num: u8 = bits as u8;
                    proof {
                        lemma_map_seven_bits(note_num as int, root_note as int, range as int);
                    }
                    assert(max_note as int == root_note as int + range as int - 1);
                    let mapped: i32 = map_to_range(note_num as i32, 0, 127, root_note as i32, max_note as i32);
                    assert(0 <= mapped <= 127);
                    let new_note = match Note::new(mapped as u8) {
                        Ok(note) => note,
                        Err(_) => {
                            assert(false);
                            root
                        },
                    };
                    let new_step = Step { note: new_note, ..s };
                    step_vec_set(&mut seq.steps, i, Some(new_step));
                    read_start_bit = read_start_bit + 1;
                },
                None => {},
            }
            i = i + 1;
        }
        assert(seq@ =~= target);
        assert forall|j: int|
            0 <= j < seq@.len() && #[trigger] seq@[j] is Some implies root.value() <= seq@[j]->0.note.value()
                <= root.value() + if range > 0 {
                range - 1
            } else {
                0
            } by {
            let k = note_count(orig.take(j));
            assert(k <= 32) by {
                lemma_note_count_bound(orig.take(j));
            }
            let kk: u64 = k as u64;
            let y: u64 = (rand >> kk) & 127u64;
            assert(y <= 127) by (bit_vector)
                requires y == (rand >> kk) & 127u64;
            let x = y as int;
            lemma_map_seven_bits(x, root_note as int, range as int);
            Note::lemma_from_value(rand_melody_note(rand, k, root_note as int, range as int) as u8);
        }
        seq
    }

    /// Give the notes of `sequence` random notes from `root` to `root + range - 1`, taken from
    /// the bits of one number drawn from `machine_resources`; rests stay rests.
    pub fn apply(
        &self,
        sequence: Sequence,
        machine_resources: &mut MachineResources,
        root: Note,
        range: u8,
    ) -> (r: Sequence)
        requires
            rand_melody_range_ok(root.value() as int, range as int),
        ensures
            exists|rand: u64| r@ == rand_melody_steps(sequence@, rand, root.value() as int, range as int),
    {
        let rand = machine_resources.random_u64();
        self.apply_with_rand(sequence, rand, root, range)
    }
}

/// Machine which gives each note of a sequence a random note from the root note up, within a
/// range. Its parameters are the root note (`ROOT`) and the width of the range (`RANGE`).
#[derive(Debug)]
pub struct RandMelodyMachine {
    sequence_processor: RandMelodyProcessor,
    params: ParamList,
}

impl RandMelodyMachine {
    /// The root note, when the first parameter holds a note.
    pub open spec fn root(self) -> Option<Note> {
        if params_of(self.spec_params()).len() >= 1 {
            match params_of(self.spec_params())[0].spec_value() {
                ParamValue::Note(n) => Some(n),
                _ => None,
            }
        } else {
            None
        }
    }

    /// The width of the range, when the second parameter holds a number.
    pub open spec fn range(self) -> Option<u8> {
        if params_of(self.spec_params()).len() >= 2 {
            match params_of(self.spec_params())[1].spec_value() {
                ParamValue::Number(n) => Some(n),
                _ => None,
            }
        } else {
            None
        }
    }

    /// A machine with root note middle C and a range of an octave (12 notes), out of 1 to 60.
    pub fn new() -> (r: RandMelodyMachine)
        ensures
            params_of(r.spec_params()).len() == 2,
            params_of(r.spec_params())[0].spec_name() == "ROOT"@,
            r.root() matches Some(n) && n.value() == 60,
            params_of(r.spec_params())[1].spec_name() == "RANGE"@,
            params_of(r.spec_params())[1].spec_min() == ParamValue::Number(1),
            params_of(r.spec_params())[1].spec_max() == ParamValue::Number(60),
            r.range() == Some(12u8),
    {
        let sequence_processor = RandMelodyProcessor::new();
        let mut params = param_list_new();
        proof {
            reveal_strlit("ROOT");
            reveal_strlit("RANGE");
            crate::text::lemma_ascii_len("ROOT");
            crate::text::lemma_ascii_len("RANGE");
        }
        param_list_push(&mut params, Param::new_note_param("ROOT"));
        param_list_push(&mut params, Param::new_number_param("RANGE", 1, 60, 12));
        RandMelodyMachine { sequence_processor, params }
    }
}

impl RandMelodyMachine {
    /// Whether the parameters hold a root note and a range width whose notes are MIDI notes.
    pub fn is_ready(&self) -> (r: bool)
        ensures
            r == self.ready(),
    {
        if crate::storage::param_list_len(&self.params) < 2 {
            return false;
        }
        let root = match param_list_get(&self.params, 0).value() {
            ParamValue::Note(n) => n.number(),
            _ => return false,
        };
        let range = match param_list_get(&self.params, 1).value() {
            ParamValue::Number(n) => n,
            _ => return false,
        };
        let top: u16 = root as u16 + range as u16;
        top >= 1 && top - 1 <= 127
    }

    /// The lowest and highest notes the machine gives: `root` to `root + range - 1`, or just
    /// `root` when the range is empty.
    pub fn note_span(&self) -> (r: (u8, u8))
        requires
            self.ready(),
        ensures
            r.0 == self.root()->0.value(),
            r.1 == if self.range()->0 > 0 {
                self.root()->0.value() + self.range()->0 - 1
            } else {
                self.root()->0.value() as int
            },
    {
        let root = match param_list_get(&self.params, 0).value() {
            ParamValue::Note(n) => n.number(),
            _ => 0,
        };
        let range = match param_list_get(&self.params, 1).value() {
            ParamValue::Number(n) => n,
            _ => 0,
        };
        if range > 0 {
            (root, root + range - 1)
        } else {
            (root, root)
        }
    }
}

impl Machine for RandMelodyMachine {
    closed spec fn spec_params(&self) -> ParamList {
        self.params
    }

    open spec fn ready(&self) -> bool {
        &&& self.root() is Some
        &&& self.range() is Some
        &&& rand_melody_range_ok(self.root()->0.value() as int, self.range()->0 as int)
    }

    fn name(&self) -> (r: &str)
        ensures
            r@ == "RAND"@,
    {
        "RAND"
    }

    fn params(&self) -> (r: &ParamList) {
        &self.params
    }

    fn params_mut(&mut self) -> (r: &mut ParamList) {
        &mut self.params
    }

    fn apply(&self, sequence: Sequence, machine_resources: &mut MachineResources) -> (r: Sequence)
        ensures
            exists|rand: u64|
                r@ == rand_melody_steps(
                    sequence@,
                    rand,
                    self.root()->0.value() as int,
                    self.range()->0 as int,
                ),
    {
        let root = match param_list_get(&self.params, 0).value() {
            ParamValue::Note(note) => note,
            _ => {
                assert(false);
                Note::default()
            },
        };
        let range = match param_list_get(&self.params, 1).value() {
            ParamValue::Number(i) => i,
            _ => {
                assert(false);
                0
            },
        };
        self.sequence_processor.apply(sequence, machine_resources, root, range)
    }
}

} // verus!
