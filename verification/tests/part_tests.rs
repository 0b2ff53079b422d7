use heapless::Vec;
use microgroove_sequencer::part::Part;

fn mask16(bits: &[bool]) -> Vec<bool, 32> {
    Vec::from_slice(bits).unwrap()
}

#[test]
fn part_mask_should_be_same_length_as_mask_len_parameter() {
    let mask = Part::new_mask(Part::Sequence, 27);
    assert_eq!(27, mask.len());
}

#[test]
fn part_sequence_mask_should_correct_for_len_16() {
    let expected = mask16(&[
        true, true, true, true, true, true, true, true, true, true, true, true, true, true, true, true,
    ]);
    assert_eq!(expected, Part::new_mask(Part::Sequence, 16));
}

#[test]
fn part_call_mask_should_correct_for_len_16() {
    let expected = mask16(&[
        true, true, true, true, true, true, true, true, false, false, false, false, false, false, false, false,
    ]);
    assert_eq!(expected, Part::new_mask(Part::Call, 16));
}

#[test]
fn part_response_mask_should_correct_for_len_16() {
    let expected = mask16(&[
        false, false, false, false, false, false, false, false, true, true, true, true, true, true, true, true,
    ]);
    assert_eq!(expected, Part::new_mask(Part::Response, 16));
}

#[test]
fn part_a_mask_should_correct_for_len_16() {
    let expected = mask16(&[
        true, true, true, true, false, false, false, false, true, true, true, true, false, false, false, false,
    ]);
    assert_eq!(expected, Part::new_mask(Part::A, 16));
}

#[test]
fn part_b_mask_should_correct_for_len_16() {
    let expected = mask16(&[
        false, false, false, false, true, true, true, true, false, false, false, false, false, false, false, false,
    ]);
    assert_eq!(expected, Part::new_mask(Part::B, 16));
}

#[test]
fn part_c_mask_should_correct_for_len_16() {
    let expected = mask16(&[
        false, false, false, false, false, false, false, false, false, false, false, false, true, true, true, true,
    ]);
    assert_eq!(expected, Part::new_mask(Part::C, 16));
}

#[test]
fn part_hook_mask_should_correct_for_len_16() {
    let expected = mask16(&[
        true, true, true, true, true, true, true, true, true, true, true, true, true, true, false, false,
    ]);
    assert_eq!(expected, Part::new_mask(Part::Hook, 16));
}

#[test]
fn part_turnaround_mask_should_correct_for_len_16() {
    let expected = mask16(&[
        false, false, false, false, false, false, false, false, false, false, false, false, false, false, true, true,
    ]);
    assert_eq!(expected, Part::new_mask(Part::Turnaround, 16));
}

#[test]
fn call_and_response_masks_partition_every_length() {
    for len in 0..=32usize {
        let call = Part::new_mask(Part::Call, len);
        let response = Part::new_mask(Part::Response, len);
        for i in 0..len {
            assert!(call[i] != response[i]);
        }
    }
}

#[test]
fn part_names_and_numbers() {
    assert_eq!("CALL", Part::Call.name());
    assert_eq!(Ok(Part::Turnaround), Part::try_from(7u8));
    assert_eq!(Err(()), Part::try_from(8u8));
}
