use microgroove_sequencer::input::InputMode;
use microgroove_sequencer::layout::{
    mode_title, note_min_max_as_u8s, param_name_points, param_value_points, sequence_margin_left, shows_machine_name,
    step_width, step_x, step_y, warning_box,
};
use microgroove_sequencer::sequence_generator::SequenceGenerator;
use microgroove_sequencer::{Sequence, Step, StepVec};

#[test]
fn note_range_of_a_sequence() {
    let steps: StepVec = [Some(64), None, Some(52), Some(70)].iter().map(|n| n.map(|n| Step::new(n).unwrap())).collect();
    assert_eq!((52, 70), note_min_max_as_u8s(&Sequence::new(steps)));
    let empty: StepVec = [None, None].iter().cloned().collect();
    assert_eq!((127, 0), note_min_max_as_u8s(&Sequence::new(empty)));
    assert_eq!((60, 60), note_min_max_as_u8s(&SequenceGenerator::initial_sequence(8)));
}

#[test]
fn steps_are_centred() {
    assert_eq!(6, step_width(8));
    assert_eq!(3, step_width(18));
    assert_eq!(36, sequence_margin_left(8));
    assert_eq!(0, sequence_margin_left(32));
    assert_eq!((43, 49), step_x(8, 1));
}

#[test]
fn higher_notes_are_drawn_higher() {
    assert_eq!(35, step_y(60, 60, 72, 6));
    assert_eq!(18, step_y(72, 60, 72, 6));
    assert_eq!(35, step_y(60, 60, 60, 6));
}

#[test]
fn parameter_table_positions() {
    let names = param_name_points(true);
    assert_eq!((60, 51), names[1]);
    assert_eq!((96, 58), names[5]);
    let names = param_name_points(false);
    assert_eq!((48, 51), names[1]);
    let values = param_value_points(false);
    assert_eq!((40, 58), values[3]);
    assert_eq!((128, 51), param_value_points(true)[2]);
}

#[test]
fn warning_box_is_centred_around_its_text() {
    // "TRACK DISABLED": 14 characters
    assert_eq!((11, 106, 20, 26), warning_box(14));
}

#[test]
fn header_titles() {
    assert_eq!("HARMONY", mode_title(InputMode::Harmony));
    assert!(shows_machine_name(InputMode::Rhythm));
    assert!(!shows_machine_name(InputMode::Track));
}
