use microgroove_sequencer::midi::Note;
use microgroove_sequencer::quantizer::{quantize, Key, Scale};

fn input_notes() -> [Note; 12] {
    [60, 61, 62, 63, 64, 65, 66, 67, 68, 69, 70, 71].map(|n| Note::new(n).unwrap())
}

fn quantize_octave(notes: [Note; 12], scale: Scale, key: Key) -> [Note; 12] {
    notes.map(|note| quantize(note, scale, key))
}

fn notes(nums: [u8; 12]) -> [Note; 12] {
    nums.map(|n| Note::new(n).unwrap())
}

#[test]
fn quantize_should_quantize_c_major() {
    // C3 D3 D3 E3 E3 F3 G3 G3 A3 A3 B3 B3
    let expected_notes = notes([60, 62, 62, 64, 64, 65, 67, 67, 69, 69, 71, 71]);
    let quantized_notes = quantize_octave(input_notes(), Scale::Major, Key::C);
    assert_eq!(expected_notes, quantized_notes);
}

#[test]
fn quantize_should_quantize_c_minor() {
    // C3 D3 D3 D#3 F3 F3 G3 G3 G#3 A#3 A#3 C4
    let expected_notes = notes([60, 62, 62, 63, 65, 65, 67, 67, 68, 70, 70, 72]);
    let quantized_notes = quantize_octave(input_notes(), Scale::NaturalMinor, Key::C);
    assert_eq!(expected_notes, quantized_notes);
}

#[test]
fn quantize_should_quantize_g_sharp_minor() {
    // C#3 C#3 D#3 D#3 E3 F#3 F#3 G#3 G#3 A#3 A#3 B3
    let expected_notes = notes([61, 61, 63, 63, 64, 66, 66, 68, 68, 70, 70, 71]);
    let quantized_notes = quantize_octave(input_notes(), Scale::NaturalMinor, Key::GSharp);
    assert_eq!(expected_notes, quantized_notes);
}

#[test]
fn quantize_chromatic_changes_nothing() {
    for n in 0..=127u8 {
        let note = Note::new(n).unwrap();
        assert_eq!(note, quantize(note, Scale::Chromatic, Key::A));
    }
}

#[test]
fn quantize_is_idempotent() {
    for n in 0..=127u8 {
        let once = quantize(Note::new(n).unwrap(), Scale::Major, Key::D);
        assert_eq!(once, quantize(once, Scale::Major, Key::D));
    }
}

#[test]
fn scale_and_key_names_and_numbers() {
    assert_eq!("MAJ", Scale::Major.name());
    assert_eq!("G#", Key::GSharp.name());
    assert_eq!(Ok(Key::B), Key::try_from(11u8));
    assert_eq!(Err(()), Key::try_from(12u8));
    assert_eq!(Ok(Scale::Locrian), Scale::try_from(19u8));
}
