use microgroove_sequencer::midi::Note;
use microgroove_sequencer::sequence_generator::SequenceGenerator;
use microgroove_sequencer::param::{ParamError, ParamValue};
use microgroove_sequencer::{map_to_range, Sequence, Step, StepVec, TimeDivision, Track};

#[test]
fn map_to_range_maps_to_range() {
    assert_eq!(10, map_to_range(100, 0, 100, 0, 10));
    assert_eq!(5, map_to_range(50, 0, 100, 0, 10));
    assert_eq!(0, map_to_range(0, 0, 100, 0, 10));
    assert_eq!(1, map_to_range(10, 0, 100, 0, 10));
    assert_eq!(66, map_to_range(63, 0, 127, 60, 72));
}

#[test]
fn lib_steps_are_correctly_ordered() {
    let (s1, s2) = (Step::new(60).unwrap(), Step::new(61).unwrap());
    assert!(s1 < s2);
}

#[test]
fn lib_track_default_generates_sequence_correctly() {
    let t = Track::default();
    let steps: StepVec = (0..8).map(|_i| Step::new(60).ok()).collect();
    let expected: Sequence = Sequence::new(steps);
    assert_eq!(expected, t.sequence);
}

#[test]
fn sequence_set_notes_should_set_note_values_from_intoiterator() {
    let seq = SequenceGenerator::initial_sequence(8);
    let notes: [Note; 8] = [60, 61, 62, 63, 64, 65, 66, 67].map(|i| Note::new(i).unwrap());
    let seq = seq.set_notes(&notes);
    let result: Vec<Note> = seq.as_slice().iter().map(|step| step.as_ref().unwrap().note).collect();
    assert_eq!(notes.to_vec(), result);
}

#[test]
fn map_to_range_maps_onto_a_reversed_range() {
    assert_eq!(35, map_to_range(60, 60, 72, 35, 15));
    assert_eq!(18, map_to_range(72, 60, 72, 35, 15));
}

#[test]
fn step_new_rejects_notes_above_127() {
    assert!(Step::new(127).is_ok());
    assert!(Step::new(128).is_err());
}

#[test]
fn sequence_rotates_both_ways() {
    let steps: StepVec = (60..64).map(|n| Step::new(n).ok()).collect();
    let seq = Sequence::new(steps);
    let left = seq.rotate_left(1);
    let notes: Vec<u8> = left.as_slice().iter().map(|s| s.as_ref().unwrap().note.number()).collect();
    assert_eq!(vec![61, 62, 63, 60], notes);
    let right = left.rotate_right(1);
    let notes: Vec<u8> = right.as_slice().iter().map(|s| s.as_ref().unwrap().note.number()).collect();
    assert_eq!(vec![60, 61, 62, 63], notes);
}

#[test]
fn sequence_mask_steps_silences_masked_steps() {
    let seq = SequenceGenerator::initial_sequence(4);
    let masked = seq.mask_steps(&[true, false, true, false]);
    let active: Vec<bool> = masked.as_slice().iter().map(|s| s.is_some()).collect();
    assert_eq!(vec![true, false, true, false], active);
}

#[test]
fn sequence_map_notes_transposes() {
    let seq = SequenceGenerator::initial_sequence(3);
    let mapped = seq.map_notes(|n: Note| Note::new(n.number() + 2).unwrap());
    assert!(mapped.as_slice().iter().all(|s| s.as_ref().unwrap().note.number() == 62));
}

#[test]
fn time_division_lengths_and_names() {
    assert_eq!(3, TimeDivision::division_length_24ppqn(TimeDivision::ThirtySecond));
    assert_eq!(6, TimeDivision::division_length_24ppqn(TimeDivision::Sixteenth));
    assert_eq!(12, TimeDivision::division_length_24ppqn(TimeDivision::Eigth));
    assert_eq!(24, TimeDivision::division_length_24ppqn(TimeDivision::Quarter));
    assert_eq!(96, TimeDivision::division_length_24ppqn(TimeDivision::Whole));
    assert_eq!("1/16", TimeDivision::Sixteenth.to_string());
    assert_eq!(TimeDivision::Quarter, TimeDivision::from_id("1/4"));
    assert_eq!(Ok(TimeDivision::Eigth), TimeDivision::try_from(2u8));
    assert_eq!(Err(()), TimeDivision::try_from(5u8));
}

#[test]
fn track_plays_a_step_every_time_division() {
    let t = Track::default();
    assert!(t.should_play_on_tick(0));
    assert!(!t.should_play_on_tick(5));
    assert!(t.should_play_on_tick(6));
    assert_eq!(1, t.step_num(6));
    assert_eq!(0, t.step_num(48));
    assert_eq!(60, t.step_at_tick(12).unwrap().note.number());
    assert!(t.step_at_tick(13).is_none());
}

#[test]
fn track_apply_params_copies_length_division_and_channel() {
    let mut t = Track::default();
    t.params_mut()[1].increment(4).unwrap();
    t.params_mut()[4].increment(1).unwrap();
    t.params_mut()[5].increment(2).unwrap();
    assert!(t.apply_params().is_ok());
    assert_eq!(12, t.length);
    assert_eq!(TimeDivision::Eigth, t.time_division);
    assert_eq!(2, t.midi_channel);
}

#[test]
fn time_division_all_variants_in_order() {
    let all = TimeDivision::all_variants();
    assert_eq!(
        &[
            TimeDivision::ThirtySecond,
            TimeDivision::Sixteenth,
            TimeDivision::Eigth,
            TimeDivision::Quarter,
            TimeDivision::Whole
        ],
        all.as_slice()
    );
}

#[test]
fn track_loops_after_its_length() {
    let t = Track::default();
    // 8 sixteenths of 6 ticks each
    for tick in 0..48u32 {
        let a = t.step_at_tick(tick).map(|s| s.note.number());
        let b = t.step_at_tick(tick + 48).map(|s| s.note.number());
        assert_eq!(a, b);
        assert_eq!(t.step_num(tick), t.step_num(tick + 48));
    }
}

#[test]
fn map_to_range_stays_in_output_range() {
    for x in 0..=127 {
        let y = map_to_range(x, 0, 127, 48, 59);
        assert!((48..=59).contains(&y));
    }
    assert_eq!(48, map_to_range(0, 0, 127, 48, 59));
}

#[test]
fn map_to_range_keeps_order_and_reaches_the_top() {
    assert_eq!(71, map_to_range(127, 0, 127, 60, 71));
    assert_eq!(60, map_to_range(0, 0, 127, 60, 71));
    let mut last = map_to_range(0, 0, 127, 60, 71);
    for x in 1..=127 {
        let y = map_to_range(x, 0, 127, 60, 71);
        assert!(last <= y);
        last = y;
    }
}

#[test]
fn track_apply_params_on_a_new_track_plays_on_the_first_channel() {
    let mut t = Track::default();
    t.midi_channel = 5;
    assert!(t.apply_params().is_ok());
    assert_eq!(0, t.midi_channel);
    assert_eq!(8, t.length);
    assert_eq!(TimeDivision::Sixteenth, t.time_division);
}

#[test]
fn track_apply_params_refuses_a_channel_outside_one_to_sixteen() {
    let mut t = Track::default();
    t.params_mut()[1].increment(4).unwrap();
    t.params_mut()[5].set(ParamValue::Number(17));
    assert_eq!(Err(ParamError::ValueError), t.apply_params());
    assert_eq!(12, t.length);
    assert_eq!(0, t.midi_channel);
    t.params_mut()[5].set(ParamValue::Number(0));
    assert_eq!(Err(ParamError::ValueError), t.apply_params());
    assert_eq!(0, t.midi_channel);
    t.params_mut()[5].set(ParamValue::Number(16));
    assert!(t.apply_params().is_ok());
    assert_eq!(15, t.midi_channel);
}
