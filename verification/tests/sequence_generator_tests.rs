use microgroove_sequencer::machine::rand_melody_machine::RandMelodyMachine;
use microgroove_sequencer::machine::{AnyMachine, Machine};
use microgroove_sequencer::machine_resources::MachineResources;
use microgroove_sequencer::param::ParamValue;
use microgroove_sequencer::part::Part;
use microgroove_sequencer::quantizer::{Key, Scale};
use microgroove_sequencer::sequence_generator::SequenceGenerator;

#[test]
fn sequence_generator_sequence_generator_default_should_create_a_new_generator() {
    let generator = SequenceGenerator::default();
    assert_eq!("UNIT", generator.rhythm_machine.name());
    assert_eq!("UNIT", generator.melody_machine.name());
}

#[test]
fn sequence_generator_sequence_generator_apply_should_generate_a_sequence() {
    let generator = SequenceGenerator::default();
    let mut machine_resources = MachineResources::new();
    let sequence = generator.generate(8, &mut machine_resources);
    assert_eq!(8, sequence.len());
    assert!(sequence.as_slice().iter().all(|step| match step {
        Some(step) => step.note.number() == 60,
        _ => false,
    }));
}

#[test]
fn sequence_generator_sequence_generator_should_quantize_melodies_if_configured_to_do_so() {
    let mut generator = SequenceGenerator::default();
    generator.set_part(Part::Sequence);
    let params = generator.harmony_params_mut();
    params[0].set(ParamValue::Scale(Scale::Major));
    params[1].set(ParamValue::Key(Key::B));
    let mut machine_resources = MachineResources::new();
    let sequence = generator.generate(8, &mut machine_resources);
    assert!(sequence.steps[0].is_some());
    let step0 = sequence.steps[0].as_ref().unwrap();
    let expected: u8 = 61; // C#3
    assert_eq!(expected, step0.note.number());
}

#[test]
fn sequence_generator_with_part_equal_call_should_only_have_active_steps_in_first_half_of_sequence() {
    let mut generator = SequenceGenerator::default();
    generator.set_part(Part::Call);
    let mut machine_resources = MachineResources::new();
    let sequence = generator.generate(8, &mut machine_resources);
    let expected_active_steps = vec![true, true, true, true, false, false, false, false];
    let actual_active_steps = sequence.as_slice().iter().map(|s| s.is_some()).collect::<Vec<bool>>();
    assert_eq!(expected_active_steps, actual_active_steps);
}

#[test]
fn sequence_generator_with_part_equal_a_should_have_two_identical_halves() {
    let mut generator = SequenceGenerator::default();
    generator.set_part(Part::A);
    generator.rhythm_machine = AnyMachine::Rand(RandMelodyMachine::new());
    let mut machine_resources = MachineResources::new();
    let sequence = generator.generate(12, &mut machine_resources);
    let half1 = &sequence.steps[0..6];
    let half2 = &sequence.steps[6..12];
    assert_eq!(half1, half2);
}

#[test]
fn sequence_generator_with_part_equal_a_and_odd_len_should_have_an_even_prefix_with_two_identical_halves() {
    let mut generator = SequenceGenerator::default();
    generator.set_part(Part::A);
    let mut machine_resources = MachineResources::new();
    let sequence = generator.generate(7, &mut machine_resources);
    let half1 = &sequence.steps[0..3];
    let half2 = &sequence.steps[3..6];
    assert_eq!(half1, half2);
}

#[test]
fn sequence_generator_default_is_ready_to_generate() {
    let generator = SequenceGenerator::default();
    assert!(generator.ready_to_generate());
    assert_eq!(Part::Sequence, generator.part());
}

#[test]
fn sequence_generator_with_melody_past_note_127_is_not_ready() {
    let mut generator = SequenceGenerator::default();
    generator.set_melody_machine(AnyMachine::Rand(RandMelodyMachine::new()));
    assert!(generator.ready_to_generate());
    generator.melody_params_mut()[0].set_from_u8(120).unwrap(); // ROOT
    assert!(!generator.ready_to_generate());
}

#[test]
fn sequence_generator_random_melody_stays_in_range_after_quantizing() {
    let mut generator = SequenceGenerator::default();
    generator.set_melody_machine(AnyMachine::Rand(RandMelodyMachine::new()));
    generator.harmony_params_mut()[0].set(ParamValue::Scale(Scale::PentatonicMinor));
    let mut machine_resources = MachineResources::new();
    for _ in 0..20 {
        let sequence = generator.generate(16, &mut machine_resources);
        assert_eq!(16, sequence.len());
        assert!(sequence.as_slice().iter().all(|s| {
            let n = s.as_ref().unwrap().note.number();
            (58..=72).contains(&n)
        }));
    }
}

fn octave_in_b_with_random_melody(root: u8, range: u8) -> SequenceGenerator {
    let mut generator = SequenceGenerator::default();
    generator.set_melody_machine(AnyMachine::Rand(RandMelodyMachine::new()));
    generator.melody_params_mut()[0].set_from_u8(root).unwrap(); // ROOT
    generator.melody_params_mut()[1].set(ParamValue::Number(range)); // RANGE
    generator.harmony_params_mut()[0].set(ParamValue::Scale(Scale::Octave));
    generator.harmony_params_mut()[1].set(ParamValue::Key(Key::B));
    generator
}

#[test]
fn try_generate_gives_nothing_when_a_drawn_note_quantizes_below_zero() {
    let generator = octave_in_b_with_random_melody(0, 1);
    assert!(generator.ready_to_try_generate());
    assert!(!generator.ready_to_generate());
    let mut machine_resources = MachineResources::new();
    assert!(generator.try_generate(8, &mut machine_resources).is_none());
}

#[test]
fn try_generate_gives_a_sequence_when_every_note_quantizes() {
    let generator = octave_in_b_with_random_melody(11, 1);
    assert!(generator.ready_to_generate());
    let mut machine_resources = MachineResources::new();
    let sequence = generator.try_generate(8, &mut machine_resources).unwrap();
    assert_eq!(8, sequence.len());
    assert!(sequence.as_slice().iter().all(|s| s.as_ref().unwrap().note.number() == 11));
}

#[test]
fn try_generate_depends_on_the_notes_actually_drawn() {
    // Notes 10 and 11 may be drawn; 10 quantizes below zero, 11 to itself.
    let generator = octave_in_b_with_random_melody(10, 2);
    assert!(generator.ready_to_try_generate());
    assert!(!generator.ready_to_generate());
    let mut machine_resources = MachineResources::new();
    let mut some = 0;
    let mut none = 0;
    for _ in 0..64 {
        match generator.try_generate(1, &mut machine_resources) {
            Some(sequence) => {
                assert_eq!(11, sequence.as_slice()[0].as_ref().unwrap().note.number());
                some += 1;
            }
            None => none += 1,
        }
    }
    assert!(some > 0 && none > 0);
}
