use microgroove_sequencer::machine::grids_rhythm_machine::{GridsRhythmMachine, Instrument};
use microgroove_sequencer::machine::rand_melody_machine::{RandMelodyMachine, RandMelodyProcessor};
use microgroove_sequencer::machine::unit_machine::UnitMachine;
use microgroove_sequencer::machine::{AnyMachine, Machine, MelodyMachineId, RhythmMachineId};
use microgroove_sequencer::machine_resources::MachineResources;
use microgroove_sequencer::midi::Note;
use microgroove_sequencer::param::ParamValue;
use microgroove_sequencer::sequence_generator::SequenceGenerator;

#[test]
fn rand_melody_machine_should_generate_random_sequences() {
    let mut machine_resources = MachineResources::new();
    let machine = RandMelodyMachine::new();
    let input_sequence = SequenceGenerator::initial_sequence(8);
    let output_sequence = machine.apply(SequenceGenerator::initial_sequence(8), &mut machine_resources);
    let output_sequence2 = machine.apply(SequenceGenerator::initial_sequence(8), &mut machine_resources);
    assert_ne!(input_sequence, output_sequence);
    assert_ne!(output_sequence, output_sequence2);
}

#[test]
fn rand_melody_machine_rand_melody_machine_should_generate_notes_in_specified_range() {
    let mut machine_resources = MachineResources::new();
    let machine = RandMelodyMachine::new();
    let root_note: u8 = Note::default().number();
    let max_note = root_note + 11;
    let output_sequence = machine.apply(SequenceGenerator::initial_sequence(8), &mut machine_resources);
    assert!(output_sequence.as_slice().iter().all(|step| {
        let note: u8 = step.as_ref().unwrap().note.number();
        note >= root_note && note <= max_note
    }));
}

#[test]
fn unit_machine_unitmachine_should_passthrough_sequence_unmodified() {
    let mut machine_resources = MachineResources::new();
    let machine = UnitMachine::new();
    let input_sequence = SequenceGenerator::initial_sequence(8);
    let output_sequence = machine.apply(SequenceGenerator::initial_sequence(8), &mut machine_resources);
    assert_eq!(output_sequence, input_sequence);
}

fn active_steps(machine: &GridsRhythmMachine) -> Vec<bool> {
    let mut machine_resources = MachineResources::new();
    let output_sequence = machine.apply(SequenceGenerator::initial_sequence(32), &mut machine_resources);
    output_sequence.as_slice().iter().map(|opt| opt.is_some()).collect()
}

#[test]
fn grids_rhythm_machine_with_default_params_should_generate_default_beat() {
    let machine = GridsRhythmMachine::new();
    assert_eq!(
        active_steps(&machine),
        [
            true, false, false, false, false, false, true, false, false, false, false, false, true, false, false,
            false, false, false, false, false, true, false, false, false, false, false, false, false, false, false,
            false, false,
        ]
    );
}

#[test]
fn grids_rhythm_machine_with_fill_maxxed_should_generate_filled_beat() {
    let mut machine = GridsRhythmMachine::new();
    machine.params_mut()[2].set(ParamValue::Number(7)); // FILL
    assert_eq!(
        active_steps(&machine),
        [
            true, false, false, false, false, false, true, false, false, false, false, false, true, false, false,
            false, true, false, true, false, true, false, false, false, true, false, false, false, true, false,
            false, false,
        ]
    );
}

#[test]
fn grids_rhythm_machine_with_perturbation_enabled_should_flip_out_and_do_funky_shit() {
    let mut machine = GridsRhythmMachine::new();
    machine.params_mut()[2].set(ParamValue::Number(7)); // FILL
    machine.params_mut()[3].set(ParamValue::Number(7)); // PERT
    assert_ne!(
        active_steps(&machine),
        [
            true, false, false, false, false, false, true, false, false, false, false, false, true, false, false,
            false, true, false, true, false, true, false, false, false, true, false, false, false, true, false,
            false, false,
        ]
    );
}

#[test]
fn grids_step_mask_without_perturbation_ignores_random_bytes() {
    let zeros = [0u64; 32];
    let ones = [255u64; 32];
    let a = GridsRhythmMachine::step_mask(0, Instrument::BD, 4, 0, &zeros);
    let b = GridsRhythmMachine::step_mask(0, Instrument::BD, 4, 0, &ones);
    assert_eq!(a, b);
    assert!(a[0]);
    assert!(!a[1]);
}

#[test]
fn grids_fuller_fill_keeps_every_step() {
    let rands = [0u64; 32];
    let sparse = GridsRhythmMachine::step_mask(3, Instrument::SD, 2, 0, &rands);
    let full = GridsRhythmMachine::step_mask(3, Instrument::SD, 6, 0, &rands);
    for i in 0..32 {
        assert!(!sparse[i] || full[i]);
    }
}

#[test]
fn rand_melody_processor_maps_random_bits_into_range() {
    let processor = RandMelodyProcessor::new();
    let root = Note::new(48).unwrap();
    let out = processor.apply_with_rand(SequenceGenerator::initial_sequence(4), 0, root, 12);
    assert!(out.as_slice().iter().all(|s| s.as_ref().unwrap().note.number() == 48));
    let out = processor.apply_with_rand(SequenceGenerator::initial_sequence(1), 127, root, 12);
    assert_eq!(59, out.as_slice()[0].as_ref().unwrap().note.number());
}

#[test]
fn machines_are_made_from_their_ids() {
    assert!(matches!(AnyMachine::from_rhythm_machine_id(RhythmMachineId::Unit), Some(AnyMachine::Unit(_))));
    assert!(matches!(AnyMachine::from_rhythm_machine_id(RhythmMachineId::Grids), Some(AnyMachine::Grids(_))));
    assert!(AnyMachine::from_rhythm_machine_id(RhythmMachineId::Euclid).is_none());
    assert_eq!("RAND", AnyMachine::from_melody_machine_id(MelodyMachineId::Rand).name());
    assert_eq!("UNIT", AnyMachine::from_melody_machine_id(MelodyMachineId::Unit).name());
    assert!(AnyMachine::from_melody_machine_id(MelodyMachineId::Rand).is_ready());
}

#[test]
fn machine_ids_convert_from_numbers() {
    assert_eq!(Ok(RhythmMachineId::Grids), RhythmMachineId::try_from(2u8));
    assert_eq!(Err(()), RhythmMachineId::try_from(3u8));
    assert_eq!(Ok(MelodyMachineId::Rand), MelodyMachineId::try_from(1u8));
    assert_eq!("EUCLID", RhythmMachineId::Euclid.name());
}
