use heapless::Vec;
use microgroove_sequencer::encoder::{Direction, EncoderArray, PositionalEncoder};
use microgroove_sequencer::input::{apply_encoder_values, next_input_mode, page_params, ready_to_apply, Button, EncoderValues, InputMode};
use microgroove_sequencer::machine::{AnyMachine, Machine};
use microgroove_sequencer::machine_resources::MachineResources;
use microgroove_sequencer::param::{ParamError, ParamValue};
use microgroove_sequencer::sequence_generator::SequenceGenerator;
use microgroove_sequencer::sequencer::{Sequencer, Swing};
use microgroove_sequencer::{TimeDivision, Track};

fn generators() -> Vec<SequenceGenerator, 16> {
    let mut gens = Vec::new();
    for _ in 0..16 {
        let _ = gens.push(SequenceGenerator::default());
    }
    gens
}

fn values(v: [Option<i8>; 6]) -> EncoderValues {
    Vec::from_slice(&v).unwrap()
}

fn sequencer_with_default_track() -> Sequencer {
    let mut sequencer = Sequencer::default();
    sequencer.enable_track(0, Track::default());
    sequencer
}

#[test]
fn track_encoder_selects_another_track_wrapping_around() {
    let mut sequencer = sequencer_with_default_track();
    let mut gens = generators();
    let mut mr = MachineResources::new();
    let mut current = 0u8;
    let v = values([None, None, Some(-1), None, None, None]);
    assert!(ready_to_apply(&v, InputMode::Track, current, &sequencer, &gens));
    assert_eq!(Ok(()), apply_encoder_values(v, InputMode::Track, &mut current, &mut sequencer, &mut gens, &mut mr));
    assert_eq!(15, current);
    let v = values([None, None, Some(3), None, None, None]);
    assert_eq!(Ok(()), apply_encoder_values(v, InputMode::Track, &mut current, &mut sequencer, &mut gens, &mut mr));
    assert_eq!(2, current);
    assert!(sequencer.tracks[2].is_none());
}

#[test]
fn turning_an_encoder_on_a_disabled_track_enables_it() {
    let mut sequencer = sequencer_with_default_track();
    let mut gens = generators();
    let mut mr = MachineResources::new();
    let mut current = 3u8;
    let v = values([Some(1), None, None, None, None, None]);
    assert_eq!(Ok(()), apply_encoder_values(v, InputMode::Track, &mut current, &mut sequencer, &mut gens, &mut mr));
    let track = sequencer.tracks[3].as_ref().unwrap();
    assert_eq!(3, track.midi_channel);
    assert_eq!(8, track.length);
    assert_eq!(TimeDivision::Sixteenth, track.time_division);
    let fresh = Track::default();
    assert_eq!(6, track.params().len());
    for (p, q) in track.params().iter().zip(fresh.params().iter()) {
        assert_eq!(q.name(), p.name());
        assert_eq!(q.value(), p.value());
    }
}

#[test]
fn track_page_changes_length_and_regenerates() {
    let mut sequencer = sequencer_with_default_track();
    let mut gens = generators();
    let mut mr = MachineResources::new();
    let mut current = 0u8;
    let v = values([None, Some(4), None, None, Some(-1), None]);
    assert!(ready_to_apply(&v, InputMode::Track, current, &sequencer, &gens));
    assert_eq!(Ok(()), apply_encoder_values(v, InputMode::Track, &mut current, &mut sequencer, &mut gens, &mut mr));
    let track = sequencer.tracks[0].as_ref().unwrap();
    assert_eq!(12, track.length);
    assert_eq!(TimeDivision::ThirtySecond, track.time_division);
    assert_eq!(12, track.sequence.len());
}

#[test]
fn track_page_switches_machines() {
    let mut sequencer = sequencer_with_default_track();
    let mut gens = generators();
    let mut mr = MachineResources::new();
    let mut current = 0u8;
    // rhythm: EUCLID -> UNIT (wrapping around); melody: RAND -> UNIT
    gens[0].set_rhythm_machine(AnyMachine::Rand(microgroove_sequencer::machine::rand_melody_machine::RandMelodyMachine::new()));
    let v = values([Some(1), None, None, Some(1), None, None]);
    assert_eq!(Ok(()), apply_encoder_values(v, InputMode::Track, &mut current, &mut sequencer, &mut gens, &mut mr));
    assert!(matches!(gens[0].rhythm_machine, AnyMachine::Unit(_)));
    assert!(matches!(gens[0].melody_machine, AnyMachine::Unit(_)));
    assert_eq!(8, sequencer.tracks[0].as_ref().unwrap().sequence.len());
}

#[test]
fn sequence_page_changes_swing() {
    let mut sequencer = sequencer_with_default_track();
    let mut gens = generators();
    let mut mr = MachineResources::new();
    let mut current = 0u8;
    let v = values([Some(2), None, None, None, None, None]);
    assert_eq!(Ok(()), apply_encoder_values(v, InputMode::Sequence, &mut current, &mut sequencer, &mut gens, &mut mr));
    assert_eq!(Swing::Mpc58, sequencer.swing());
}

#[test]
fn harmony_page_changes_scale_and_quantizes() {
    let mut sequencer = sequencer_with_default_track();
    let mut gens = generators();
    let mut mr = MachineResources::new();
    let mut current = 0u8;
    // scale OFF -> MAJ, key C -> B
    let v = values([Some(1), Some(-1), None, None, None, None]);
    assert_eq!(Ok(()), apply_encoder_values(v, InputMode::Harmony, &mut current, &mut sequencer, &mut gens, &mut mr));
    let track = sequencer.tracks[0].as_ref().unwrap();
    assert!(track.sequence.as_slice().iter().all(|s| s.as_ref().unwrap().note.number() == 61));
}

#[test]
fn a_failed_increment_returns_its_error() {
    let mut sequencer = sequencer_with_default_track();
    let mut gens = generators();
    let mut mr = MachineResources::new();
    let mut current = 0u8;
    sequencer.params_mut()[0].set(ParamValue::Swing(Swing::Mpc75));
    sequencer.params_mut()[0].set(ParamValue::Number(200));
    let v = values([Some(1), None, None, None, None, None]);
    let r = apply_encoder_values(v, InputMode::Sequence, &mut current, &mut sequencer, &mut gens, &mut mr);
    assert!(r.is_ok() || r == Err(ParamError::ValueError));
}

#[test]
fn buttons_cycle_between_their_pages() {
    assert_eq!(InputMode::Sequence, next_input_mode(InputMode::Track, Button::Track));
    assert_eq!(InputMode::Track, next_input_mode(InputMode::Sequence, Button::Track));
    assert_eq!(InputMode::Rhythm, next_input_mode(InputMode::Harmony, Button::Rhythm));
    assert_eq!(InputMode::Groove, next_input_mode(InputMode::Rhythm, Button::Rhythm));
    assert_eq!(InputMode::Melody, next_input_mode(InputMode::Groove, Button::Melody));
    assert_eq!(InputMode::Harmony, next_input_mode(InputMode::Melody, Button::Melody));
    assert_eq!(InputMode::Track, InputMode::default());
}

#[test]
fn pages_show_their_parameters() {
    let sequencer = sequencer_with_default_track();
    let gens = generators();
    let track = sequencer.tracks[0].as_ref().unwrap();
    assert_eq!(6, page_params(InputMode::Track, track, &gens[0], &sequencer).len());
    assert_eq!(1, page_params(InputMode::Sequence, track, &gens[0], &sequencer).len());
    assert_eq!(2, page_params(InputMode::Harmony, track, &gens[0], &sequencer).len());
    assert_eq!("SCALE", page_params(InputMode::Harmony, track, &gens[0], &sequencer)[0].name());
}

#[test]
fn encoders_count_clicks_until_taken() {
    let mut e = PositionalEncoder::new();
    assert_eq!(Some(1), e.update(Ok(Direction::Clockwise)));
    assert_eq!(Some(2), e.update(Ok(Direction::Clockwise)));
    assert_eq!(None, e.update(Ok(Direction::Idle)));
    assert_eq!(None, e.update(Err(())));
    assert_eq!(Some(1), e.update(Ok(Direction::CounterClockwise)));
    assert_eq!(Some(1), e.take_value());
    assert_eq!(None, e.take_value());
}

#[test]
fn encoder_array_takes_all_values() {
    let mut encoders: Vec<PositionalEncoder, 6> = Vec::new();
    for _ in 0..6 {
        let _ = encoders.push(PositionalEncoder::new());
    }
    let mut array = EncoderArray::new(encoders);
    assert_eq!(Some(-1), array.update_encoder(4, Ok(Direction::CounterClockwise)));
    let values = array.take_values();
    assert_eq!(&[None, None, None, None, Some(-1), None], values.as_slice());
    let values = array.take_values();
    assert_eq!(&[None; 6], values.as_slice());
}

#[test]
fn machine_names_on_the_generator() {
    let generator = SequenceGenerator::default();
    assert_eq!("UNIT", generator.rhythm_name());
    assert_eq!(0, generator.rhythm_machine.params().len());
}

#[test]
fn enabling_a_track_needs_no_generator() {
    let mut sequencer = sequencer_with_default_track();
    let mut gens: Vec<SequenceGenerator, 16> = Vec::new();
    let mut mr = MachineResources::new();
    let mut current = 5u8;
    let v = values([None, Some(1), None, None, None, None]);
    assert!(ready_to_apply(&v, InputMode::Track, current, &sequencer, &gens));
    assert_eq!(Ok(()), apply_encoder_values(v, InputMode::Track, &mut current, &mut sequencer, &mut gens, &mut mr));
    let track = sequencer.tracks[5].as_ref().unwrap();
    assert_eq!(5, track.midi_channel);
    assert_eq!(8, track.length);
    let v = values([None, Some(1), None, None, None, None]);
    assert!(!ready_to_apply(&v, InputMode::Track, current, &sequencer, &gens));
}
