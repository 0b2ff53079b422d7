//! Generate a track's sequence: an initial sequence piped through a rhythm machine, a melody
//! machine, the quantizer and the part mask.
use crate::machine::unit_machine::UnitMachine;
use crate::machine::{AnyMachine, Machine};
use crate::machine::grids_rhythm_machine::grids_settings;
use crate::machine::rand_melody_machine::{lemma_map_seven_bits, note_count, rand_melody_note, rand_melody_steps};
use crate::machine_resources::MachineResources;
use crate::midi::Note;
use crate::param::{params_of, Param, ParamList, ParamValue};
use crate::part::{part_mask, Part};
use crate::quantizer::{quantize, quantize_in_range, quantize_spec, quantizes_in_range, Key, Scale};
use crate::storage::{
    mask_as_slice, param_list_get, param_list_get_mut, param_list_len, param_list_new, param_list_push, step_vec_new,
    step_vec_push,
};
use crate::{masked_steps, step_with_note, Sequence, Step, StepVec, SEQUENCE_MAX_STEPS};
use vstd::prelude::*;

verus! {

/// Note number of the steps of a new sequence (middle C).
pub const INITIAL_NOTE: u8 = 60;

/// The sequence that generation starts from: `length` steps playing middle C.
pub open spec fn initial_steps(length: nat) -> Seq<Option<Step>> {
    Seq::new(length, |i: int| Some(Step::spec_new(Note::from_value(INITIAL_NOTE))))
}

/// `steps` with every note quantized to `scale` in `key`.
pub open spec fn quantized_steps(steps: Seq<Option<Step>>, scale: Scale, key: Key) -> Seq<Option<Step>> {
    Seq::new(
        steps.len(),
        |i: int|
            match steps[i] {
                None => None,
                Some(s) => Some(
                    step_with_note(
                        s,
                        Note::from_value(quantize_spec(s.note.value() as int, scale, key) as u8),
                    ),
                ),
            },
    )
}

/// `steps` with `part` applied: the steps outside the part become rests. Part `A` then plays
/// its first half twice: the result is the first `len / 2` steps followed by the first
/// `len - len / 2` steps.
pub open spec fn part_steps(steps: Seq<Option<Step>>, part: Part) -> Seq<Option<Step>> {
    let masked = masked_steps(steps, part_mask(part, steps.len() as int));
    if part == Part::A {
        let prefix_len = steps.len() / 2;
        let suffix_len = steps.len() - prefix_len;
        masked.take(prefix_len as int) + masked.take(suffix_len as int)
    } else {
        masked
    }
}

/// Every note of `steps` is in `lo..=hi`.
pub open spec fn notes_within(steps: Seq<Option<Step>>, lo: int, hi: int) -> bool {
    forall|i: int| 0 <= i < steps.len() && #[trigger] steps[i] is Some ==> lo <= steps[i]->0.note.value() <= hi
}

/// The notes that `m` can give a sequence whose notes are in `lo..=hi`: a random melody machine
/// replaces them by notes of its range; the others keep them.
pub open spec fn machine_note_range(m: AnyMachine, lo: int, hi: int) -> (int, int) {
    match m {
        AnyMachine::Rand(r) => {
            let root = r.root()->0.value() as int;
            let range = r.range()->0 as int;
            (root, if range > 0 { root + range - 1 } else { root })
        },
        _ => (lo, hi),
    }
}

/// Some note of `melody` would quantize below note 0 in `scale` and `key`.
pub open spec fn quantize_underflows(melody: Seq<Option<Step>>, scale: Scale, key: Key) -> bool {
    exists|i: int|
        0 <= i < melody.len() && #[trigger] melody[i] is Some && !quantize_in_range(
            melody[i]->0.note.value() as int,
            scale,
            key,
        )
}

/// A sequence generator: the machines and parameters that make a track's sequence.
#[derive(Debug)]
pub struct SequenceGenerator {
    pub rhythm_machine: AnyMachine,
    pub melody_machine: AnyMachine,
    groove_params: ParamList,
    harmony_params: ParamList,
}

impl SequenceGenerator {
    /// The rhythm machine.
    pub closed spec fn rhythm(self) -> AnyMachine {
        self.rhythm_machine
    }

    /// The melody machine.
    pub closed spec fn melody(self) -> AnyMachine {
        self.melody_machine
    }

    /// The groove parameters: the part.
    pub closed spec fn spec_groove_params(self) -> ParamList {
        self.groove_params
    }

    /// The harmony parameters: the scale and the key of the quantizer.
    pub closed spec fn spec_harmony_params(self) -> ParamList {
        self.harmony_params
    }

    /// The part, when the first groove parameter holds one.
    pub open spec fn spec_part(self) -> Option<Part> {
        if params_of(self.spec_groove_params()).len() >= 1 {
            match params_of(self.spec_groove_params())[0].spec_value() {
                ParamValue::Part(p) => Some(p),
                _ => None,
            }
        } else {
            None
        }
    }

    /// The scale, when the first harmony parameter holds one.
    pub open spec fn spec_scale(self) -> Option<Scale> {
        if params_of(self.spec_harmony_params()).len() >= 2 {
            match params_of(self.spec_harmony_params())[0].spec_value() {
                ParamValue::Scale(s) => Some(s),
                _ => None,
            }
        } else {
            None
        }
    }

    /// The key, when the second harmony parameter holds one.
    pub open spec fn spec_key(self) -> Option<Key> {
        if params_of(self.spec_harmony_params()).len() >= 2 {
            match params_of(self.spec_harmony_params())[1].spec_value() {
                ParamValue::Key(k) => Some(k),
                _ => None,
            }
        } else {
            None
        }
    }

    /// The notes that generated sequences can hold, lowest and highest.
    pub open spec fn note_range(self) -> (int, int) {
        let after_rhythm = machine_note_range(self.rhythm(), INITIAL_NOTE as int, INITIAL_NOTE as int);
        machine_note_range(self.melody(), after_rhythm.0, after_rhythm.1)
    }

    /// Whether `generate` can run: both machines are ready, the groove parameter holds a part,
    /// the harmony parameters hold a scale and a key, and every note the machines can give
    /// quantizes to a valid note.
    pub open spec fn can_generate(self) -> bool {
        &&& self.rhythm().ready()
        &&& self.melody().ready()
        &&& self.spec_part() is Some
        &&& self.spec_scale() is Some
        &&& self.spec_key() is Some
        &&& forall|n: int|
            self.note_range().0 <= n <= self.note_range().1 ==> #[trigger] quantize_in_range(
                n,
                self.spec_scale()->0,
                self.spec_key()->0,
            )
    }

    /// The notes that `m` can give a sequence whose notes are in `lo..=hi`.
    fn machine_notes(m: &AnyMachine, lo: u8, hi: u8) -> (r: (u8, u8))
        requires
            m.ready(),
        ensures
            (r.0 as int, r.1 as int) == machine_note_range(*m, lo as int, hi as int),
    {
        match m {
            AnyMachine::Rand(r) => r.note_span(),
            _ => (lo, hi),
        }
    }

    /// Whether `generate` can run (see `can_generate`): both machines are ready, the
    /// parameters hold a part, a scale and a key, and the notes the machines can give all
    /// quantize to valid notes.
    #[verifier::spinoff_prover]
    pub fn ready_to_generate(&self) -> (r: bool)
        ensures
            r == self.can_generate(),
    {
        if !self.ready_to_try_generate() {
            return false;
        }
        let scale = match param_list_get(&self.harmony_params, 0).value() {
            ParamValue::Scale(s) => s,
            _ => return false,
        };
        let key = match param_list_get(&self.harmony_params, 1).value() {
            ParamValue::Key(k) => k,
            _ => return false,
        };
        let after_rhythm = Self::machine_notes(&self.rhythm_machine, INITIAL_NOTE, INITIAL_NOTE);
        let span = Self::machine_notes(&self.melody_machine, after_rhythm.0, after_rhythm.1);
        let lo = span.0;
        let hi = span.1;
        assert(self.note_range() == (lo as int, hi as int));
        let mut n: u16 = lo as u16;
        while n <= hi as u16
            invariant
                lo <= n <= hi as u16 + 1,
                self.note_range() == (lo as int, hi as int),
                self.spec_scale() == Some(scale),
                self.spec_key() == Some(key),
                forall|m: int| lo <= m < n ==> #[trigger] quantize_in_range(m, scale, key),
            decreases hi as u16 + 1 - n,
        {
            if !quantizes_in_range(n as u8, scale, key) {
                assert(self.note_range().0 <= n as int <= self.note_range().1);
                assert(!quantize_in_range(n as int, self.spec_scale()->0, self.spec_key()->0));
                return false;
            }
            n = n + 1;
        }
        true
    }

    /// Whether `try_generate` can run (see `can_try_generate`): both machines are ready and the
    /// parameters hold a part, a scale and a key.
    pub fn ready_to_try_generate(&self) -> (r: bool)
        ensures
            r == self.can_try_generate(),
    {
        if !self.rhythm_machine.is_ready() || !self.melody_machine.is_ready() {
            return false;
        }
        if param_list_len(&self.groove_params) < 1 {
            return false;
        }
        match param_list_get(&self.groove_params, 0).value() {
            ParamValue::Part(_) => {},
            _ => return false,
        }
        if param_list_len(&self.harmony_params) < 2 {
            return false;
        }
        match param_list_get(&self.harmony_params, 0).value() {
            ParamValue::Scale(_) => {},
            _ => return false,
        }
        match param_list_get(&self.harmony_params, 1).value() {
            ParamValue::Key(_) => true,
            _ => false,
        }
    }

    /// The initial sequence: `length` steps, all playing middle C.
    pub fn initial_sequence(length: u8) -> (r: Sequence)
        requires
            length as usize <= SEQUENCE_MAX_STEPS,
        ensures
            r@ == initial_steps(length as nat),
    {
        let mut steps: StepVec = step_vec_new();
        let mut i: u8 = 0;
        while i < length
            invariant
                length <= 32,
                0 <= i <= length,
                crate::storage::step_vec_contents(steps) == initial_steps(i as nat),
            decreases length - i,
        {
            let step = Step::new(INITIAL_NOTE);
            let s = match step {
                Ok(s) => s,
                Err(_) => {
                    assert(false);
                    return Sequence::new(steps);
                },
            };
            assert(s == Step::spec_new(Note::from_value(INITIAL_NOTE))) by {
                Note::lemma_from_own_value(s.note);
            }
            step_vec_push(&mut steps, Some(s));
            assert(initial_steps((i + 1) as nat) =~= initial_steps(i as nat).push(Some(s)));
            i = i + 1;
        }
        Sequence::new(steps)
    }
}


/// A machine keeps the notes of a sequence within the range that `machine_note_range` gives.
#[verifier::spinoff_prover]
#[verifier::rlimit(30)]
pub proof fn lemma_machine_note_range(
    m: AnyMachine,
    input: Seq<Option<Step>>,
    output: Seq<Option<Step>>,
    lo: int,
    hi: int,
)
    requires
        m.ready(),
        m.generates(input, output),
        notes_within(input, lo, hi),
    ensures
        notes_within(output, machine_note_range(m, lo, hi).0, machine_note_range(m, lo, hi).1),
{
    match m {
        AnyMachine::Unit(_) => {},
        AnyMachine::Grids(g) => {
            let (instrument, table, fill, perturbation) = grids_settings(params_of(g.spec_params()))->0;
            let rands = choose|rands: Seq<u64>|
                #![trigger crate::machine::grids_rhythm_machine::grids_mask(table as int, instrument, fill, perturbation, rands)]
                rands.len() == input.len() && (forall|i: int| 0 <= i < rands.len() ==> #[trigger] rands[i] < 256)
                    && output == masked_steps(input, crate::machine::grids_rhythm_machine::grids_mask(table as int, instrument, fill, perturbation, rands));
            assert(output == masked_steps(input, crate::machine::grids_rhythm_machine::grids_mask(table as int, instrument, fill, perturbation, rands)));
        },
        AnyMachine::Rand(r) => {
            let root = r.root()->0.value() as int;
            let range = r.range()->0 as int;
            let rand = choose|rand: u64| output == rand_melody_steps(input, rand, root, range);
            assert forall|i: int| 0 <= i < output.len() && #[trigger] output[i] is Some implies root
                <= output[i]->0.note.value() <= (if range > 0 { root + range - 1 } else { root }) by {
                let k = note_count(input.take(i));
                let kk: u64 = k as u64;
                let y: u64 = (rand >> kk) & 127u64;
                assert(y <= 127) by (bit_vector)
                    requires y == (rand >> kk) & 127u64;
                lemma_map_seven_bits(y as int, root, range);
                assert(rand_melody_note(rand, k, root, range) == crate::map_to_range_spec(y as int, 0, 127, root, root + range - 1));
                Note::lemma_from_value(rand_melody_note(rand, k, root, range) as u8);
            }
        },
    }
}

impl Default for SequenceGenerator {
    /// Unit machines for rhythm and melody, the whole sequence as the part, and quantizing off
    /// (chromatic scale, key of C).
    fn default() -> (r: SequenceGenerator)
        ensures
            r.rhythm() is Unit,
            r.melody() is Unit,
            r.spec_part() == Some(Part::Sequence),
            r.spec_scale() == Some(Scale::Chromatic),
            r.spec_key() == Some(Key::C),
            params_of(r.spec_groove_params()).len() == 1,
            params_of(r.spec_groove_params())[0].spec_name() == "PART"@,
            params_of(r.spec_harmony_params()).len() == 2,
            params_of(r.spec_harmony_params())[0].spec_name() == "SCALE"@,
            params_of(r.spec_harmony_params())[1].spec_name() == "KEY"@,
            r.can_generate(),
    {
        let mut groove_params = param_list_new();
        let mut harmony_params = param_list_new();
        proof {
            reveal_strlit("PART");
            reveal_strlit("SCALE");
            reveal_strlit("KEY");
            crate::text::lemma_ascii_len("PART");
            crate::text::lemma_ascii_len("SCALE");
            crate::text::lemma_ascii_len("KEY");
        }
        param_list_push(&mut groove_params, Param::new_part_param("PART"));
        param_list_push(&mut harmony_params, Param::new_scale_param("SCALE"));
        param_list_push(&mut harmony_params, Param::new_key_param("KEY"));
        let r = SequenceGenerator {
            rhythm_machine: AnyMachine::Unit(UnitMachine::new()),
            melody_machine: AnyMachine::Unit(UnitMachine::new()),
            groove_params,
            harmony_params,
        };
        assert forall|n: int| r.note_range().0 <= n <= r.note_range().1 implies #[trigger] quantize_in_range(
            n,
            Scale::Chromatic,
            Key::C,
        ) by {
            crate::quantizer::lemma_quantize_in_range_above_key(n, Scale::Chromatic, Key::C);
        }
        r
    }
}

impl SequenceGenerator {
    /// Replace the rhythm machine.
    pub fn set_rhythm_machine(&mut self, m: AnyMachine)
        ensures
            final(self).rhythm() == m,
            final(self).melody() == old(self).melody(),
            final(self).spec_groove_params() == old(self).spec_groove_params(),
            final(self).spec_harmony_params() == old(self).spec_harmony_params(),
    {
        self.rhythm_machine = m;
    }

    /// Replace the melody machine.
    pub fn set_melody_machine(&mut self, m: AnyMachine)
        ensures
            final(self).melody() == m,
            final(self).rhythm() == old(self).rhythm(),
            final(self).spec_groove_params() == old(self).spec_groove_params(),
            final(self).spec_harmony_params() == old(self).spec_harmony_params(),
    {
        self.melody_machine = m;
    }

    /// The rhythm machine's parameters.
    pub fn rhythm_params(&self) -> (r: &ParamList)
        ensures
            *r == self.rhythm().spec_params(),
    {
        self.rhythm_machine.params()
    }

    /// The melody machine's parameters.
    pub fn melody_params(&self) -> (r: &ParamList)
        ensures
            *r == self.melody().spec_params(),
    {
        self.melody_machine.params()
    }

    /// The rhythm machine's name.
    pub fn rhythm_name(&self) -> (r: &str)
        ensures
            r@ == self.rhythm().machine_name(),
    {
        self.rhythm_machine.name()
    }

    /// The melody machine's name.
    pub fn melody_name(&self) -> (r: &str)
        ensures
            r@ == self.melody().machine_name(),
    {
        self.melody_machine.name()
    }

    /// The rhythm machine's parameters, to change in place.
    pub fn rhythm_params_mut(&mut self) -> (r: &mut ParamList)
        ensures
            *r == old(self).rhythm().spec_params(),
            final(self).rhythm().spec_params() == *final(r),
            final(self).rhythm().same_kind(old(self).rhythm()),
            final(self).melody() == old(self).melody(),
            final(self).spec_groove_params() == old(self).spec_groove_params(),
            final(self).spec_harmony_params() == old(self).spec_harmony_params(),
    {
        self.rhythm_machine.params_mut()
    }

    /// The melody machine's parameters, to change in place.
    pub fn melody_params_mut(&mut self) -> (r: &mut ParamList)
        ensures
            *r == old(self).melody().spec_params(),
            final(self).melody().spec_params() == *final(r),
            final(self).melody().same_kind(old(self).melody()),
            final(self).rhythm() == old(self).rhythm(),
            final(self).spec_groove_params() == old(self).spec_groove_params(),
            final(self).spec_harmony_params() == old(self).spec_harmony_params(),
    {
        self.melody_machine.params_mut()
    }

    /// The groove parameters: the part.
    pub fn groove_params(&self) -> (r: &ParamList)
        ensures
            *r == self.spec_groove_params(),
    {
        &self.groove_params
    }

    /// The groove parameters, to change in place.
    pub fn groove_params_mut(&mut self) -> (r: &mut ParamList)
        ensures
            *r == old(self).spec_groove_params(),
            final(self).spec_groove_params() == *final(r),
            final(self).spec_harmony_params() == old(self).spec_harmony_params(),
            final(self).rhythm() == old(self).rhythm(),
            final(self).melody() == old(self).melody(),
    {
        &mut self.groove_params
    }

    /// The harmony parameters: the scale and the key of the quantizer.
    pub fn harmony_params(&self) -> (r: &ParamList)
        ensures
            *r == self.spec_harmony_params(),
    {
        &self.harmony_params
    }

    /// The harmony parameters, to change in place.
    pub fn harmony_params_mut(&mut self) -> (r: &mut ParamList)
        ensures
            *r == old(self).spec_harmony_params(),
            final(self).spec_harmony_params() == *final(r),
            final(self).spec_groove_params() == old(self).spec_groove_params(),
            final(self).rhythm() == old(self).rhythm(),
            final(self).melody() == old(self).melody(),
    {
        &mut self.harmony_params
    }

    /// The part that generated sequences play.
    pub fn part(&self) -> (r: Part)
        requires
            self.spec_part() is Some,
        ensures
            r == self.spec_part()->0,
    {
        match param_list_get(&self.groove_params, 0).value() {
            ParamValue::Part(p) => p,
            _ => {
                assert(false);
                Part::Sequence
            },
        }
    }

    /// Set the part that generated sequences play.
    pub fn set_part(&mut self, part: Part)
        requires
            params_of(old(self).spec_groove_params()).len() >= 1,
        ensures
            params_of(final(self).spec_groove_params()) == params_of(old(self).spec_groove_params()).update(
                0,
                params_of(old(self).spec_groove_params())[0].with_value(ParamValue::Part(part)),
            ),
            final(self).spec_part() == Some(part),
            final(self).spec_harmony_params() == old(self).spec_harmony_params(),
            final(self).rhythm() == old(self).rhythm(),
            final(self).melody() == old(self).melody(),
            old(self).can_generate() ==> final(self).can_generate(),
    {
        let p = param_list_get_mut(&mut self.groove_params, 0);
        p.set(ParamValue::Part(part));
        proof {
            params_of(old(self).spec_groove_params())[0].lemma_with_value(ParamValue::Part(part));
        }
    }

    /// Quantize every note of `sequence` to the scale and key of the harmony parameters.
    #[verifier::spinoff_prover]
    pub fn apply_quantizer(&self, sequence: Sequence) -> (r: Sequence)
        requires
            self.spec_scale() is Some,
            self.spec_key() is Some,
            forall|i: int|
                0 <= i < sequence@.len() && #[trigger] sequence@[i] is Some ==> quantize_in_range(
                    sequence@[i]->0.note.value() as int,
                    self.spec_scale()->0,
                    self.spec_key()->0,
                ),
        ensures
            r@ == quantized_steps(sequence@, self.spec_scale()->0, self.spec_key()->0),
    {
        let scale = match param_list_get(&self.harmony_params, 0).value() {
            ParamValue::Scale(s) => s,
            _ => {
                assert(false);
                Scale::Chromatic
            },
        };
        let key = match param_list_get(&self.harmony_params, 1).value() {
            ParamValue::Key(k) => k,
            _ => {
                assert(false);
                Key::C
            },
        };
        let ghost input = sequence@;
        let f = |note: Note| -> (q: Note)
            requires
                quantize_in_range(note.value() as int, scale, key),
            ensures
                q.value() == quantize_spec(note.value() as int, scale, key),
            { quantize(note, scale, key) };
        let r = sequence.map_notes(f);
        assert forall|i: int| 0 <= i < input.len() implies #[trigger] r@[i] == quantized_steps(input, scale, key)[i] by {
            match input[i] {
                Some(s) => {
                    let t = r@[i]->0;
                    Note::lemma_from_own_value(t.note);
                },
                None => {},
            }
        }
        assert(r@ =~= quantized_steps(input, scale, key));
        r
    }

    /// Apply the part to `sequence`: silence the steps outside it; part `A` then plays its first
    /// half twice.
    #[verifier::spinoff_prover]
    pub fn apply_part(&self, sequence: Sequence) -> (r: Sequence)
        requires
            self.spec_part() is Some,
        ensures
            r@ == part_steps(sequence@, self.spec_part()->0),
    {
        let part = self.part();
        let n = sequence.len();
        let step_mask = Part::new_mask(part, n);
        let masked = sequence.mask_steps(mask_as_slice(&step_mask));
        match part {
            Part::A => {
                let prefix_len = n / 2;
                let suffix_len = n - prefix_len;
                let steps = masked.as_slice();
                let mut result: StepVec = step_vec_new();
                let mut i: usize = 0;
                while i < prefix_len
                    invariant
                        n <= 32,
                        steps@.len() == n,
                        prefix_len == n / 2,
                        0 <= i <= prefix_len,
                        crate::storage::step_vec_contents(result) == steps@.take(i as int),
                    decreases prefix_len - i,
                {
                    step_vec_push(&mut result, steps[i]);
                    assert(steps@.take(i + 1) =~= steps@.take(i as int).push(steps@[i as int]));
                    i = i + 1;
                }
                let mut j: usize = 0;
                while j < suffix_len
                    invariant
                        n <= 32,
                        steps@.len() == n,
                        prefix_len == n / 2,
                        suffix_len == n - prefix_len,
                        0 <= j <= suffix_len,
                        crate::storage::step_vec_contents(result) == steps@.take(prefix_len as int)
                            + steps@.take(j as int),
                    decreases suffix_len - j,
                {
                    step_vec_push(&mut result, steps[j]);
                    assert(steps@.take(prefix_len as int) + steps@.take(j + 1) =~= (steps@.take(
                        prefix_len as int,
                    ) + steps@.take(j as int)).push(steps@[j as int]));
                    j = j + 1;
                }
                masked.set_steps(result)
            },
            _ => masked,
        }
    }

    /// `steps` is a sequence that `generate(length)` can give: the initial sequence of
    /// `length` steps through the rhythm machine, then the melody machine, then the quantizer,
    /// then the part.
    pub open spec fn generated(self, length: u8, steps: Seq<Option<Step>>) -> bool {
        exists|rhythm: Seq<Option<Step>>, melody: Seq<Option<Step>>|
            #![trigger self.rhythm().generates(initial_steps(length as nat), rhythm), self.melody().generates(rhythm, melody)]
            self.rhythm().generates(initial_steps(length as nat), rhythm) && self.melody().generates(rhythm, melody)
                && steps == part_steps(
                quantized_steps(melody, self.spec_scale()->0, self.spec_key()->0),
                self.spec_part()->0,
            )
    }

    /// Whether the machines are ready and the parameters hold a part, a scale and a key:
    /// what `try_generate` needs.
    pub open spec fn can_try_generate(self) -> bool {
        &&& self.rhythm().ready()
        &&& self.melody().ready()
        &&& self.spec_part() is Some
        &&& self.spec_scale() is Some
        &&& self.spec_key() is Some
    }

    /// A generation at `length` can fail: the rhythm machine and then the melody machine can
    /// give a melody with a note that quantizing would take below note 0.
    pub open spec fn generation_fails(self, length: u8) -> bool {
        exists|rhythm: Seq<Option<Step>>, melody: Seq<Option<Step>>|
            #![trigger self.rhythm().generates(initial_steps(length as nat), rhythm), self.melody().generates(rhythm, melody)]
            self.rhythm().generates(initial_steps(length as nat), rhythm) && self.melody().generates(rhythm, melody)
                && quantize_underflows(melody, self.spec_scale()->0, self.spec_key()->0)
    }

    /// Generate a sequence of `length` steps as `generate` does, checking the notes that the
    /// machines actually gave: when one of them would quantize below note 0, no sequence comes
    /// out. When every note the machines can give quantizes (`can_generate`), a sequence
    /// always comes out.
    #[verifier::spinoff_prover]
    #[verifier::rlimit(30)]
    pub fn try_generate(&self, length: u8, machine_resources: &mut MachineResources) -> (r: Option<Sequence>)
        requires
            length as usize <= SEQUENCE_MAX_STEPS,
            self.can_try_generate(),
        ensures
            match r {
                Some(s) => self.generated(length, s@),
                None => self.generation_fails(length),
            },
            self.can_generate() ==> r is Some,
    {
        let initial = Self::initial_sequence(length);
        let ghost s0 = initial@;
        let rhythm = self.rhythm_machine.apply(initial, machine_resources);
        let ghost s1 = rhythm@;
        let melody = self.melody_machine.apply(rhythm, machine_resources);
        let ghost s2 = melody@;
        let scale = match param_list_get(&self.harmony_params, 0).value() {
            ParamValue::Scale(s) => s,
            _ => {
                assert(false);
                Scale::Chromatic
            },
        };
        let key = match param_list_get(&self.harmony_params, 1).value() {
            ParamValue::Key(k) => k,
            _ => {
                assert(false);
                Key::C
            },
        };
        proof {
            if self.can_generate() {
                Note::lemma_from_value(INITIAL_NOTE);
                assert(notes_within(s0, INITIAL_NOTE as int, INITIAL_NOTE as int));
                lemma_machine_note_range(self.rhythm(), s0, s1, INITIAL_NOTE as int, INITIAL_NOTE as int);
                let after_rhythm = machine_note_range(self.rhythm(), INITIAL_NOTE as int, INITIAL_NOTE as int);
                lemma_machine_note_range(self.melody(), s1, s2, after_rhythm.0, after_rhythm.1);
                assert forall|i: int| 0 <= i < s2.len() && #[trigger] s2[i] is Some implies quantize_in_range(
                    s2[i]->0.note.value() as int,
                    scale,
                    key,
                ) by {
                    let n = s2[i]->0.note.value() as int;
                    assert(self.note_range().0 <= n <= self.note_range().1);
                    assert(quantize_in_range(n, self.spec_scale()->0, self.spec_key()->0));
                }
            }
        }
        let steps = melody.as_slice();
        let mut i: usize = 0;
        while i < steps.len()
            invariant
                steps@ == s2,
                0 <= i <= s2.len(),
                self.spec_scale() == Some(scale),
                self.spec_key() == Some(key),
                self.rhythm().generates(initial_steps(length as nat), s1),
                self.melody().generates(s1, s2),
                self.can_generate() ==> forall|j: int| 0 <= j < s2.len() && #[trigger] s2[j] is Some ==> quantize_in_range(
                    s2[j]->0.note.value() as int,
                    scale,
                    key,
                ),
                forall|j: int| 0 <= j < i && #[trigger] s2[j] is Some ==> quantize_in_range(
                    s2[j]->0.note.value() as int,
                    scale,
                    key,
                ),
            decreases s2.len() - i,
        {
            match &steps[i] {
                Some(step) => {
                    if !quantizes_in_range(step.note.number(), scale, key) {
                        proof {
                            assert(s2[i as int] is Some);
                            assert(quantize_underflows(s2, scale, key));
                            assert(self.rhythm().generates(initial_steps(length as nat), s1) && self.melody().generates(s1, s2));
                        }
                        return None;
                    }
                },
                None => {},
            }
            i = i + 1;
        }
        let quantized = self.apply_quantizer(melody);
        Some(self.apply_part(quantized))
    }

    /// Generate a sequence of `length` steps: the initial sequence goes through the rhythm
    /// machine, then the melody machine; its notes are quantized; then the part is applied.
    #[verifier::spinoff_prover]
    pub fn generate(&self, length: u8, machine_resources: &mut MachineResources) -> (r: Sequence)
        requires
            length as usize <= SEQUENCE_MAX_STEPS,
            self.can_generate(),
        ensures
            self.generated(length, r@),
    {
        let initial = Self::initial_sequence(length);
        let ghost s0 = initial@;
        let rhythm = self.rhythm_machine.apply(initial, machine_resources);
        let ghost s1 = rhythm@;
        let melody = self.melody_machine.apply(rhythm, machine_resources);
        let ghost s2 = melody@;
        proof {
            Note::lemma_from_value(INITIAL_NOTE);
            assert(notes_within(s0, INITIAL_NOTE as int, INITIAL_NOTE as int));
            lemma_machine_note_range(self.rhythm(), s0, s1, INITIAL_NOTE as int, INITIAL_NOTE as int);
            let after_rhythm = machine_note_range(self.rhythm(), INITIAL_NOTE as int, INITIAL_NOTE as int);
            lemma_machine_note_range(self.melody(), s1, s2, after_rhythm.0, after_rhythm.1);
            assert forall|i: int| 0 <= i < s2.len() && #[trigger] s2[i] is Some implies quantize_in_range(
                s2[i]->0.note.value() as int,
                self.spec_scale()->0,
                self.spec_key()->0,
            ) by {
                let n = s2[i]->0.note.value() as int;
                assert(self.note_range().0 <= n <= self.note_range().1);
            }
        }
        let quantized = self.apply_quantizer(melody);
        self.apply_part(quantized)
    }
}


/// What a part does to each step: the step plays where the part's mask lets it through and is
/// a rest where it does not. Part `A` then repeats the first half: step `i` of its second half
/// is step `i - len / 2` under the same rule.
pub proof fn lemma_part_steps_follow_mask(steps: Seq<Option<Step>>, part: Part)
    ensures
        part_steps(steps, part).len() == steps.len(),
        forall|i: int|
            0 <= i < steps.len() ==> #[trigger] part_steps(steps, part)[i] == ({
                let src = if part == Part::A && i >= steps.len() / 2 { i - steps.len() / 2 } else { i };
                if part_mask(part, steps.len() as int)[src] { steps[src] } else { None }
            }),
{
    let n = steps.len() as int;
    let out = part_steps(steps, part);
    assert forall|i: int| 0 <= i < n implies #[trigger] part_steps(steps, part)[i] == ({
        let src = if part == Part::A && i >= n / 2 { i - n / 2 } else { i };
        if part_mask(part, n)[src] { steps[src] } else { None }
    }) by {
        let src = if part == Part::A && i >= n / 2 { i - n / 2 } else { i };
        assert(0 <= src < n);
        assert(masked_steps(steps, part_mask(part, n))[src] == if part_mask(part, n)[src] { steps[src] } else { None });
    }
}

/// Part `A` of a sequence whose length is a multiple of four plays its first quarter, rests
/// for the second, plays the first quarter again and rests for the fourth.
pub proof fn lemma_part_a_plays_first_quarter_twice(steps: Seq<Option<Step>>)
    requires
        steps.len() % 4 == 0,
    ensures
        part_steps(steps, Part::A).len() == steps.len(),
        forall|i: int| 0 <= i < steps.len() / 4 ==> #[trigger] part_steps(steps, Part::A)[i] == steps[i],
        forall|i: int|
            steps.len() / 2 <= i < 3 * (steps.len() / 4) ==> #[trigger] part_steps(steps, Part::A)[i] == steps[i
                - steps.len() / 2],
        forall|i: int|
            (steps.len() / 4 <= i < steps.len() / 2 || 3 * (steps.len() / 4) <= i < steps.len())
                ==> #[trigger] part_steps(steps, Part::A)[i] is None,
{
    let n = steps.len() as int;
    lemma_part_steps_follow_mask(steps, Part::A);
    assert(n / 2 == 2 * (n / 4));
    assert forall|i: int| 0 <= i < n / 4 implies #[trigger] part_steps(steps, Part::A)[i] == steps[i] by {
        assert(part_mask(Part::A, n)[i]);
    }
    assert forall|i: int| n / 2 <= i < 3 * (n / 4) implies #[trigger] part_steps(steps, Part::A)[i] == steps[i
        - n / 2] by {
        assert(part_mask(Part::A, n)[i - n / 2]);
    }
    assert forall|i: int| (n / 4 <= i < n / 2 || 3 * (n / 4) <= i < n) implies #[trigger] part_steps(
        steps,
        Part::A,
    )[i] is None by {
        let src = if i >= n / 2 { i - n / 2 } else { i };
        assert(!part_mask(Part::A, n)[src]);
    }
}

/// Part `A` plays the same steps twice: the step `len / 2` places after any step of the first
/// half is the same step, and the result is as long as the input.
pub proof fn lemma_part_a_repeats(steps: Seq<Option<Step>>)
    ensures
        part_steps(steps, Part::A).len() == steps.len(),
        forall|i: int|
            0 <= i < steps.len() / 2 ==> #[trigger] part_steps(steps, Part::A)[i] == part_steps(
                steps,
                Part::A,
            )[i + steps.len() / 2],
{
}

/// Parts other than `A` only silence steps: every step of the result is a rest or the step of
/// the input at the same place.
pub proof fn lemma_part_only_silences(steps: Seq<Option<Step>>, part: Part)
    requires
        part != Part::A,
    ensures
        part_steps(steps, part).len() == steps.len(),
        forall|i: int|
            0 <= i < steps.len() ==> #[trigger] part_steps(steps, part)[i] is None || part_steps(
                steps,
                part,
            )[i] == steps[i],
{
}

/// Quantizing keeps rests and the position of every note: only note numbers change.
pub proof fn lemma_quantize_keeps_rhythm(steps: Seq<Option<Step>>, scale: Scale, key: Key)
    ensures
        quantized_steps(steps, scale, key).len() == steps.len(),
        forall|i: int|
            0 <= i < steps.len() ==> (#[trigger] quantized_steps(steps, scale, key)[i] is Some
                <==> steps[i] is Some),
{
}

} // verus!
