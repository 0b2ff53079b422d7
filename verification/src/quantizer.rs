//! Fit notes to musical scales.
use crate::midi::Note;
use vstd::prelude::*;
use vstd::std_specs::convert::TryFromSpecImpl;

verus! {

/// A musical scale. `Chromatic` (all twelve notes) turns quantizing off.
#[derive(Clone, Copy, Debug, PartialEq, Eq, Structural)]
pub enum Scale {
    Chromatic,
    Major,
    NaturalMinor,
    HarmonicMinor,
    MelodicMinor,
    PentatonicMajor,
    PentatonicMinor,
    HexatonicBlues,
    WholeTone,
    MajorTriad,
    MinorTriad,
    DominantSeventh,
    DiminishedSeventh,
    Octave,
    OctaveAndFifth,
    Dorian,
    Phrygian,
    Lydian,
    Mixolydian,
    Locrian,
}

/// Number of scales.
pub const SCALE_COUNT: u8 = 20;

impl Scale {
    /// The position of the scale in the list of scales, from 0 (`Chromatic`) to 19 (`Locrian`).
    pub open spec fn index(self) -> u8 {
        match self {
            Scale::Chromatic => 0,
            Scale::Major => 1,
            Scale::NaturalMinor => 2,
            Scale::HarmonicMinor => 3,
            Scale::MelodicMinor => 4,
            Scale::PentatonicMajor => 5,
            Scale::PentatonicMinor => 6,
            Scale::HexatonicBlues => 7,
            Scale::WholeTone => 8,
            Scale::MajorTriad => 9,
            Scale::MinorTriad => 10,
            Scale::DominantSeventh => 11,
            Scale::DiminishedSeventh => 12,
            Scale::Octave => 13,
            Scale::OctaveAndFifth => 14,
            Scale::Dorian => 15,
            Scale::Phrygian => 16,
            Scale::Lydian => 17,
            Scale::Mixolydian => 18,
            Scale::Locrian => 19,
        }
    }

    /// The scale at position `value` in the list of scales.
    pub open spec fn from_index(value: u8) -> Option<Scale> {
        if value == 0 { Some(Scale::Chromatic) }
        else if value == 1 { Some(Scale::Major) }
        else if value == 2 { Some(Scale::NaturalMinor) }
        else if value == 3 { Some(Scale::HarmonicMinor) }
        else if value == 4 { Some(Scale::MelodicMinor) }
        else if value == 5 { Some(Scale::PentatonicMajor) }
        else if value == 6 { Some(Scale::PentatonicMinor) }
        else if value == 7 { Some(Scale::HexatonicBlues) }
        else if value == 8 { Some(Scale::WholeTone) }
        else if value == 9 { Some(Scale::MajorTriad) }
        else if value == 10 { Some(Scale::MinorTriad) }
        else if value == 11 { Some(Scale::DominantSeventh) }
        else if value == 12 { Some(Scale::DiminishedSeventh) }
        else if value == 13 { Some(Scale::Octave) }
        else if value == 14 { Some(Scale::OctaveAndFifth) }
        else if value == 15 { Some(Scale::Dorian) }
        else if value == 16 { Some(Scale::Phrygian) }
        else if value == 17 { Some(Scale::Lydian) }
        else if value == 18 { Some(Scale::Mixolydian) }
        else if value == 19 { Some(Scale::Locrian) }
        else { None }
    }

    /// The scale's position in the list of scales.
    pub fn to_u8(self) -> (r: u8)
        ensures
            r == self.index(),
            r < SCALE_COUNT,
    {
        match self {
            Scale::Chromatic => 0,
            Scale::Major => 1,
            Scale::NaturalMinor => 2,
            Scale::HarmonicMinor => 3,
            Scale::MelodicMinor => 4,
            Scale::PentatonicMajor => 5,
            Scale::PentatonicMinor => 6,
            Scale::HexatonicBlues => 7,
            Scale::WholeTone => 8,
            Scale::MajorTriad => 9,
            Scale::MinorTriad => 10,
            Scale::DominantSeventh => 11,
            Scale::DiminishedSeventh => 12,
            Scale::Octave => 13,
            Scale::OctaveAndFifth => 14,
            Scale::Dorian => 15,
            Scale::Phrygian => 16,
            Scale::Lydian => 17,
            Scale::Mixolydian => 18,
            Scale::Locrian => 19,
        }
    }

    /// Three letter name of the scale, as shown on the display.
    pub open spec fn display_name(self) -> Seq<char> {
        match self {
            Scale::Chromatic => "OFF"@,
            Scale::Major => "MAJ"@,
            Scale::NaturalMinor => "MIN"@,
            Scale::HarmonicMinor => "HMI"@,
            Scale::MelodicMinor => "MMI"@,
            Scale::PentatonicMajor => "PMA"@,
            Scale::PentatonicMinor => "PMI"@,
            Scale::HexatonicBlues => "BLU"@,
            Scale::WholeTone => "WHL"@,
            Scale::MajorTriad => "3MA"@,
            Scale::MinorTriad => "3MI"@,
            Scale::DominantSeventh => "7DO"@,
            Scale::DiminishedSeventh => "7DI"@,
            Scale::Octave => "OCT"@,
            Scale::OctaveAndFifth => "O+5"@,
            Scale::Dorian => "DOR"@,
            Scale::Phrygian => "PHR"@,
            Scale::Lydian => "LYD"@,
            Scale::Mixolydian => "MIX"@,
            Scale::Locrian => "LOC"@,
        }
    }

    /// The name is short ASCII text: at most six characters.
    pub proof fn lemma_display_name_short(self)
        ensures
            self.display_name().len() <= 6,
            vstd::utf8::is_ascii_chars(self.display_name()),
    {
        match self {
            Scale::Chromatic => reveal_strlit("OFF"),
            Scale::Major => reveal_strlit("MAJ"),
            Scale::NaturalMinor => reveal_strlit("MIN"),
            Scale::HarmonicMinor => reveal_strlit("HMI"),
            Scale::MelodicMinor => reveal_strlit("MMI"),
            Scale::PentatonicMajor => reveal_strlit("PMA"),
            Scale::PentatonicMinor => reveal_strlit("PMI"),
            Scale::HexatonicBlues => reveal_strlit("BLU"),
            Scale::WholeTone => reveal_strlit("WHL"),
            Scale::MajorTriad => reveal_strlit("3MA"),
            Scale::MinorTriad => reveal_strlit("3MI"),
            Scale::DominantSeventh => reveal_strlit("7DO"),
            Scale::DiminishedSeventh => reveal_strlit("7DI"),
            Scale::Octave => reveal_strlit("OCT"),
            Scale::OctaveAndFifth => reveal_strlit("O+5"),
            Scale::Dorian => reveal_strlit("DOR"),
            Scale::Phrygian => reveal_strlit("PHR"),
            Scale::Lydian => reveal_strlit("LYD"),
            Scale::Mixolydian => reveal_strlit("MIX"),
            Scale::Locrian => reveal_strlit("LOC"),
        }
    }

    /// Three letter name of the scale, as shown on the display.
    pub fn name(&self) -> (r: &'static str)
        ensures
            r@ == self.display_name(),
    {
        match self {
            Scale::Chromatic => "OFF",
            Scale::Major => "MAJ",
            Scale::NaturalMinor => "MIN",
            Scale::HarmonicMinor => "HMI",
            Scale::MelodicMinor => "MMI",
            Scale::PentatonicMajor => "PMA",
            Scale::PentatonicMinor => "PMI",
            Scale::HexatonicBlues => "BLU",
            Scale::WholeTone => "WHL",
            Scale::MajorTriad => "3MA",
            Scale::MinorTriad => "3MI",
            Scale::DominantSeventh => "7DO",
            Scale::DiminishedSeventh => "7DI",
            Scale::Octave => "OCT",
            Scale::OctaveAndFifth => "O+5",
            Scale::Dorian => "DOR",
            Scale::Phrygian => "PHR",
            Scale::Lydian => "LYD",
            Scale::Mixolydian => "MIX",
            Scale::Locrian => "LOC",
        }
    }
}

impl Default for Scale {
    fn default() -> (r: Scale)
        ensures
            r == Scale::Chromatic,
    {
        Scale::Chromatic
    }
}

impl TryFrom<u8> for Scale {
    type Error = ();

    /// The scale at position `value` in the list of scales; fails past the last scale.
    fn try_from(value: u8) -> (r: Result<Scale, ()>) {
        if value == 0 { Ok(Scale::Chromatic) }
        else if value == 1 { Ok(Scale::Major) }
        else if value == 2 { Ok(Scale::NaturalMinor) }
        else if value == 3 { Ok(Scale::HarmonicMinor) }
        else if value == 4 { Ok(Scale::MelodicMinor) }
        else if value == 5 { Ok(Scale::PentatonicMajor) }
        else if value == 6 { Ok(Scale::PentatonicMinor) }
        else if value == 7 { Ok(Scale::HexatonicBlues) }
        else if value == 8 { Ok(Scale::WholeTone) }
        else if value == 9 { Ok(Scale::MajorTriad) }
        else if value == 10 { Ok(Scale::MinorTriad) }
        else if value == 11 { Ok(Scale::DominantSeventh) }
        else if value == 12 { Ok(Scale::DiminishedSeventh) }
        else if value == 13 { Ok(Scale::Octave) }
        else if value == 14 { Ok(Scale::OctaveAndFifth) }
        else if value == 15 { Ok(Scale::Dorian) }
        else if value == 16 { Ok(Scale::Phrygian) }
        else if value == 17 { Ok(Scale::Lydian) }
        else if value == 18 { Ok(Scale::Mixolydian) }
        else if value == 19 { Ok(Scale::Locrian) }
        else { Err(()) }
    }
}

impl TryFromSpecImpl<u8> for Scale {
    open spec fn obeys_try_from_spec() -> bool {
        true
    }

    open spec fn try_from_spec(v: u8) -> Result<Scale, ()> {
        match Scale::from_index(v) {
            Some(s) => Ok(s),
            None => Err(()),
        }
    }
}


/// A musical key: the note of the chromatic octave that scales start from.
#[derive(Clone, Copy, Debug, PartialEq, Eq, Structural)]
pub enum Key {
    C,
    CSharp,
    D,
    DSharp,
    E,
    F,
    FSharp,
    G,
    GSharp,
    A,
    ASharp,
    B,
}

/// Number of keys.
pub const KEY_COUNT: u8 = 12;

impl Key {
    /// The key's position in the chromatic octave, from 0 (`C`) to 11 (`B`).
    pub open spec fn index(self) -> u8 {
        match self {
            Key::C => 0,
            Key::CSharp => 1,
            Key::D => 2,
            Key::DSharp => 3,
            Key::E => 4,
            Key::F => 5,
            Key::FSharp => 6,
            Key::G => 7,
            Key::GSharp => 8,
            Key::A => 9,
            Key::ASharp => 10,
            Key::B => 11,
        }
    }

    /// The key at position `value` in the chromatic octave.
    pub open spec fn from_index(value: u8) -> Option<Key> {
        if value == 0 { Some(Key::C) }
        else if value == 1 { Some(Key::CSharp) }
        else if value == 2 { Some(Key::D) }
        else if value == 3 { Some(Key::DSharp) }
        else if value == 4 { Some(Key::E) }
        else if value == 5 { Some(Key::F) }
        else if value == 6 { Some(Key::FSharp) }
        else if value == 7 { Some(Key::G) }
        else if value == 8 { Some(Key::GSharp) }
        else if value == 9 { Some(Key::A) }
        else if value == 10 { Some(Key::ASharp) }
        else if value == 11 { Some(Key::B) }
        else { None }
    }

    /// The key's position in the chromatic octave.
    pub fn to_u8(self) -> (r: u8)
        ensures
            r == self.index(),
            r < KEY_COUNT,
    {
        match self {
            Key::C => 0,
            Key::CSharp => 1,
            Key::D => 2,
            Key::DSharp => 3,
            Key::E => 4,
            Key::F => 5,
            Key::FSharp => 6,
            Key::G => 7,
            Key::GSharp => 8,
            Key::A => 9,
            Key::ASharp => 10,
            Key::B => 11,
        }
    }

    /// Name of the key, as shown on the display.
    pub open spec fn display_name(self) -> Seq<char> {
        match self {
            Key::C => "C"@,
            Key::CSharp => "C#"@,
            Key::D => "D"@,
            Key::DSharp => "D#"@,
            Key::E => "E"@,
            Key::F => "F"@,
            Key::FSharp => "F#"@,
            Key::G => "G"@,
            Key::GSharp => "G#"@,
            Key::A => "A"@,
            Key::ASharp => "A#"@,
            Key::B => "B"@,
        }
    }

    /// The name is short ASCII text: at most six characters.
    pub proof fn lemma_display_name_short(self)
        ensures
            self.display_name().len() <= 6,
            vstd::utf8::is_ascii_chars(self.display_name()),
    {
        match self {
            Key::C => reveal_strlit("C"),
            Key::CSharp => reveal_strlit("C#"),
            Key::D => reveal_strlit("D"),
            Key::DSharp => reveal_strlit("D#"),
            Key::E => reveal_strlit("E"),
            Key::F => reveal_strlit("F"),
            Key::FSharp => reveal_strlit("F#"),
            Key::G => reveal_strlit("G"),
            Key::GSharp => reveal_strlit("G#"),
            Key::A => reveal_strlit("A"),
            Key::ASharp => reveal_strlit("A#"),
            Key::B => reveal_strlit("B"),
        }
    }

    /// Name of the key, as shown on the display.
    pub fn name(&self) -> (r: &'static str)
        ensures
            r@ == self.display_name(),
    {
        match self {
            Key::C => "C",
            Key::CSharp => "C#",
            Key::D => "D",
            Key::DSharp => "D#",
            Key::E => "E",
            Key::F => "F",
            Key::FSharp => "F#",
            Key::G => "G",
            Key::GSharp => "G#",
            Key::A => "A",
            Key::ASharp => "A#",
            Key::B => "B",
        }
    }
}

impl Default for Key {
    fn default() -> (r: Key)
        ensures
            r == Key::C,
    {
        Key::C
    }
}

impl TryFrom<u8> for Key {
    type Error = ();

    /// The key at position `value` in the chromatic octave; fails past `B`.
    fn try_from(value: u8) -> (r: Result<Key, ()>) {
        if value == 0 { Ok(Key::C) }
        else if value == 1 { Ok(Key::CSharp) }
        else if value == 2 { Ok(Key::D) }
        else if value == 3 { Ok(Key::DSharp) }
        else if value == 4 { Ok(Key::E) }
        else if value == 5 { Ok(Key::F) }
        else if value == 6 { Ok(Key::FSharp) }
        else if value == 7 { Ok(Key::G) }
        else if value == 8 { Ok(Key::GSharp) }
        else if value == 9 { Ok(Key::A) }
        else if value == 10 { Ok(Key::ASharp) }
        else if value == 11 { Ok(Key::B) }
        else { Err(()) }
    }
}

impl TryFromSpecImpl<u8> for Key {
    open spec fn obeys_try_from_spec() -> bool {
        true
    }

    open spec fn try_from_spec(v: u8) -> Result<Key, ()> {
        match Key::from_index(v) {
            Some(k) => Ok(k),
            None => Err(()),
        }
    }
}

/// For each degree of the chromatic octave (counted from the key), the degree that the scale
/// quantizes it to. A value of 12 is the key's note one octave up.
pub open spec fn scale_map(scale: Scale) -> Seq<u8> {
    match scale {
        Scale::Chromatic =>         seq![0,  1,  2,  3,  4,  5,  6,  7,  8,  9,  10, 11],
        Scale::Major =>             seq![0,  2,  2,  4,  4,  5,  7,  7,  9,  9,  11, 11],
        Scale::NaturalMinor =>      seq![0,  2,  2,  3,  5,  5,  7,  7,  8,  10, 10, 12],
        Scale::HarmonicMinor =>     seq![0,  2,  2,  3,  5,  5,  7,  7,  8,  8,  11, 11],
        Scale::MelodicMinor =>      seq![0,  2,  2,  3,  5,  5,  7,  7,  9,  9,  11, 11],
        Scale::PentatonicMajor =>   seq![0,  2,  2,  4,  4,  4,  7,  7,  9,  9,  9,  12],
        Scale::PentatonicMinor =>   seq![0,  0,  3,  3,  5,  5,  7,  7,  7,  10, 10, 10],
        Scale::HexatonicBlues =>    seq![0,  0,  3,  3,  5,  5,  6,  7,  7,  10, 10, 10],
        Scale::WholeTone =>         seq![0,  0,  2,  2,  4,  4,  6,  6,  8,  8,  10, 10],
        Scale::MajorTriad =>        seq![0,  0,  0,  0,  4,  4,  4,  7,  7,  7,  7,  7 ],
        Scale::MinorTriad =>        seq![0,  0,  0,  3,  3,  3,  3,  7,  7,  7,  7,  7 ],
        Scale::DominantSeventh =>   seq![0,  0,  0,  0,  4,  4,  4,  7,  7,  7,  10, 10],
        Scale::DiminishedSeventh => seq![0,  0,  0,  3,  3,  3,  6,  6,  6,  9,  9,  9 ],
        Scale::Octave =>            seq![0,  0,  0,  0,  0,  0,  0,  0,  0,  0,  0,  0 ],
        Scale::OctaveAndFifth =>    seq![0,  0,  0,  0,  0,  0,  7,  7,  7,  7,  7,  7 ],
        Scale::Dorian =>            seq![0,  2,  2,  3,  3,  5,  7,  7,  9,  9,  10, 10],
        Scale::Phrygian =>          seq![0,  1,  1,  3,  3,  5,  5,  7,  8,  8,  10, 10],
        Scale::Lydian =>            seq![0,  2,  2,  4,  4,  6,  6,  7,  9,  9,  11, 11],
        Scale::Mixolydian =>        seq![0,  2,  2,  4,  4,  5,  7,  7,  9,  9,  10, 10],
        Scale::Locrian =>           seq![0,  1,  1,  3,  3,  5,  6,  6,  8,  8,  10, 10],
    }
}

/// The scale's degree map, as an array of twelve degrees.
pub fn scale_map_of(scale: Scale) -> (r: [u8; 12])
    ensures
        r@ == scale_map(scale),
{
    let r: [u8; 12] = match scale {
        Scale::Chromatic =>         [0,  1,  2,  3,  4,  5,  6,  7,  8,  9,  10, 11],
        Scale::Major =>             [0,  2,  2,  4,  4,  5,  7,  7,  9,  9,  11, 11],
        Scale::NaturalMinor =>      [0,  2,  2,  3,  5,  5,  7,  7,  8,  10, 10, 12],
        Scale::HarmonicMinor =>     [0,  2,  2,  3,  5,  5,  7,  7,  8,  8,  11, 11],
        Scale::MelodicMinor =>      [0,  2,  2,  3,  5,  5,  7,  7,  9,  9,  11, 11],
        Scale::PentatonicMajor =>   [0,  2,  2,  4,  4,  4,  7,  7,  9,  9,  9,  12],
        Scale::PentatonicMinor =>   [0,  0,  3,  3,  5,  5,  7,  7,  7,  10, 10, 10],
        Scale::HexatonicBlues =>    [0,  0,  3,  3,  5,  5,  6,  7,  7,  10, 10, 10],
        Scale::WholeTone =>         [0,  0,  2,  2,  4,  4,  6,  6,  8,  8,  10, 10],
        Scale::MajorTriad =>        [0,  0,  0,  0,  4,  4,  4,  7,  7,  7,  7,  7 ],
        Scale::MinorTriad =>        [0,  0,  0,  3,  3,  3,  3,  7,  7,  7,  7,  7 ],
        Scale::DominantSeventh =>   [0,  0,  0,  0,  4,  4,  4,  7,  7,  7,  10, 10],
        Scale::DiminishedSeventh => [0,  0,  0,  3,  3,  3,  6,  6,  6,  9,  9,  9 ],
        Scale::Octave =>            [0,  0,  0,  0,  0,  0,  0,  0,  0,  0,  0,  0 ],
        Scale::OctaveAndFifth =>    [0,  0,  0,  0,  0,  0,  7,  7,  7,  7,  7,  7 ],
        Scale::Dorian =>            [0,  2,  2,  3,  3,  5,  7,  7,  9,  9,  10, 10],
        Scale::Phrygian =>          [0,  1,  1,  3,  3,  5,  5,  7,  8,  8,  10, 10],
        Scale::Lydian =>            [0,  2,  2,  4,  4,  6,  6,  7,  9,  9,  11, 11],
        Scale::Mixolydian =>        [0,  2,  2,  4,  4,  5,  7,  7,  9,  9,  10, 10],
        Scale::Locrian =>           [0,  1,  1,  3,  3,  5,  6,  6,  8,  8,  10, 10],
    };
    assert(r@ =~= scale_map(scale));
    r
}

/// The note number that `note` quantizes to in `scale` and `key`, before it is capped at 127:
/// the note's degree above the key is mapped through the scale, in the same octave.
pub open spec fn quantize_unclamped(note: int, scale: Scale, key: Key) -> int {
    let offset = 12 - key.index();
    let shifted = note + offset;
    scale_map(scale)[shifted % 12] + (shifted / 12) * 12 - offset
}

/// The note number that `quantize` returns.
pub open spec fn quantize_spec(note: int, scale: Scale, key: Key) -> int {
    let q = quantize_unclamped(note, scale, key);
    if q > 127 { 127 } else { q }
}

/// True unless quantizing `note` would go below note 0. That happens only to notes below the
/// key's note in the lowest octave, when the scale maps them down past it.
pub open spec fn quantize_in_range(note: int, scale: Scale, key: Key) -> bool {
    quantize_unclamped(note, scale, key) >= 0
}

/// Whether quantizing `note` stays at or above note 0 (see `quantize_in_range`).
pub fn quantizes_in_range(note: u8, scale: Scale, key: Key) -> (r: bool)
    ensures
        r == quantize_in_range(note as int, scale, key),
{
    let offset: u16 = 12 - key.to_u8() as u16;
    let shifted: u16 = note as u16 + offset;
    let interval_map = scale_map_of(scale);
    let degree: u16 = interval_map[(shifted % 12) as usize] as u16;
    degree + (shifted / 12) * 12 >= offset
}

/// Quantize `note` to `scale` in `key`: the note moves to the scale degree that the scale
/// maps its degree to, in the same octave; results above 127 are capped at 127.
pub fn quantize(note: Note, scale: Scale, key: Key) -> (r: Note)
    requires
        quantize_in_range(note.value() as int, scale, key),
    ensures
        r.value() == quantize_spec(note.value() as int, scale, key),
{
    let key_num: u8 = key.to_u8();
    let offset: u8 = 12 - key_num;
    let note_num: u8 = note.number();
    let note_num_offset: u8 = note_num + offset;
    let octave: u8 = note_num_offset / 12;
    let degree: u8 = note_num_offset % 12;
    let interval_map = scale_map_of(scale);
    let quantized_degree: u8 = interval_map[degree as usize];
    assert(quantized_degree <= 12) by {
        assert(scale_map(scale)[degree as int] <= 12);
    }
    let quantized_note_num: u8 = (quantized_degree + octave * 12) - offset;
    let capped: u8 = if quantized_note_num < 127 { quantized_note_num } else { 127 };
    match Note::new(capped) {
        Ok(n) => n,
        Err(_) => {
            assert(false);
            note
        },
    }
}


/// Every degree in a scale map is at most 12, and each degree that a map produces below 12 is
/// mapped to itself: the scale's notes are fixed points of the map.
pub proof fn lemma_scale_map_closed(scale: Scale)
    ensures
        scale_map(scale).len() == 12,
        forall|d: int| 0 <= d < 12 ==> #[trigger] scale_map(scale)[d] <= 12,
        forall|d: int|
            0 <= d < 12 ==> #[trigger] scale_map(scale)[d] == 12 || scale_map(scale)[
                scale_map(scale)[d] as int
            ] == scale_map(scale)[d],
{
    assert(scale_map(scale)[0] == 0);
    assert forall|d: int| 0 <= d < 12 implies #[trigger] scale_map(scale)[d] <= 12 && (scale_map(scale)[d] == 12
        || scale_map(scale)[scale_map(scale)[d] as int] == scale_map(scale)[d]) by {
        match scale {
            Scale::Chromatic => {},
            Scale::Major => {},
            Scale::NaturalMinor => {},
            Scale::HarmonicMinor => {},
            Scale::MelodicMinor => {},
            Scale::PentatonicMajor => {},
            Scale::PentatonicMinor => {},
            Scale::HexatonicBlues => {},
            Scale::WholeTone => {},
            Scale::MajorTriad => {},
            Scale::MinorTriad => {},
            Scale::DominantSeventh => {},
            Scale::DiminishedSeventh => {},
            Scale::Octave => {},
            Scale::OctaveAndFifth => {},
            Scale::Dorian => {},
            Scale::Phrygian => {},
            Scale::Lydian => {},
            Scale::Mixolydian => {},
            Scale::Locrian => {},
        }
    }
}

/// Quantizing to the chromatic scale leaves every note where it is, in every key.
pub proof fn lemma_quantize_chromatic_is_identity(note: int, key: Key)
    requires
        0 <= note <= 127,
    ensures
        quantize_in_range(note, Scale::Chromatic, key),
        quantize_spec(note, Scale::Chromatic, key) == note,
{
    let offset = 12 - key.index();
    let shifted = note + offset;
    assert(scale_map(Scale::Chromatic)[shifted % 12] == shifted % 12);
}

/// A quantized note is at most eleven semitones below the note, and at most one above it.
pub proof fn lemma_quantize_moves_little(note: int, scale: Scale, key: Key)
    requires
        0 <= note <= 127,
    ensures
        note - 11 <= quantize_unclamped(note, scale, key) <= note + 1,
{
    lemma_scale_map_closed(scale);
    let offset = 12 - key.index();
    let shifted = note + offset;
    assert(shifted == (shifted / 12) * 12 + shifted % 12);
    assert forall|d: int| 0 <= d < 12 implies #[trigger] scale_map(scale)[d] <= d + 1 by {
        match scale {
            Scale::Chromatic => {},
            Scale::Major => {},
            Scale::NaturalMinor => {},
            Scale::HarmonicMinor => {},
            Scale::MelodicMinor => {},
            Scale::PentatonicMajor => {},
            Scale::PentatonicMinor => {},
            Scale::HexatonicBlues => {},
            Scale::WholeTone => {},
            Scale::MajorTriad => {},
            Scale::MinorTriad => {},
            Scale::DominantSeventh => {},
            Scale::DiminishedSeventh => {},
            Scale::Octave => {},
            Scale::OctaveAndFifth => {},
            Scale::Dorian => {},
            Scale::Phrygian => {},
            Scale::Lydian => {},
            Scale::Mixolydian => {},
            Scale::Locrian => {},
        }
    }
    assert(scale_map(scale)[shifted % 12] <= shifted % 12 + 1);
}

/// Notes at or above the key's note in the lowest octave always quantize to a valid note; in
/// the key of C that is every note.
pub proof fn lemma_quantize_in_range_above_key(note: int, scale: Scale, key: Key)
    requires
        key.index() <= note <= 127,
    ensures
        quantize_in_range(note, scale, key),
{
    lemma_scale_map_closed(scale);
    let offset = 12 - key.index();
    let shifted = note + offset;
    assert(shifted >= 12);
    assert(shifted / 12 >= 1);
    assert(scale_map(scale)[shifted % 12] >= 0);
}

/// Quantizing is idempotent: a quantized note (that was not capped at 127) is already in the
/// scale, so quantizing it again leaves it unchanged.
pub proof fn lemma_quantize_idempotent(note: int, scale: Scale, key: Key)
    requires
        0 <= note <= 127,
        quantize_in_range(note, scale, key),
        quantize_unclamped(note, scale, key) <= 127,
    ensures
        quantize_in_range(quantize_spec(note, scale, key), scale, key),
        quantize_spec(quantize_spec(note, scale, key), scale, key) == quantize_spec(note, scale, key),
{
    lemma_scale_map_closed(scale);
    let offset = 12 - key.index();
    let shifted = note + offset;
    let d = shifted % 12;
    let oct = shifted / 12;
    let m = scale_map(scale)[d] as int;
    let q = quantize_spec(note, scale, key);
    assert(q == m + oct * 12 - offset);
    assert(q + offset == m + oct * 12);
    if m == 12 {
        assert((q + offset) % 12 == 0 && (q + offset) / 12 == oct + 1) by {
            assert(q + offset == (oct + 1) * 12);
        }
        assert(scale_map(scale)[0] == 0);
    } else {
        assert((q + offset) % 12 == m && (q + offset) / 12 == oct) by {
            assert(0 <= m < 12);
        }
    }
}

/// Whether degree `d` of the chromatic octave, counted in semitones from the key's note, is a
/// note of `scale`: the scale's intervals from its root.
pub open spec fn scale_has_degree(scale: Scale, d: int) -> bool {
    match scale {
        Scale::Chromatic => 0 <= d < 12,
        Scale::Major => set![0int, 2, 4, 5, 7, 9, 11].contains(d),
        Scale::NaturalMinor => set![0int, 2, 3, 5, 7, 8, 10].contains(d),
        Scale::HarmonicMinor => set![0int, 2, 3, 5, 7, 8, 11].contains(d),
        Scale::MelodicMinor => set![0int, 2, 3, 5, 7, 9, 11].contains(d),
        Scale::PentatonicMajor => set![0int, 2, 4, 7, 9].contains(d),
        Scale::PentatonicMinor => set![0int, 3, 5, 7, 10].contains(d),
        Scale::HexatonicBlues => set![0int, 3, 5, 6, 7, 10].contains(d),
        Scale::WholeTone => set![0int, 2, 4, 6, 8, 10].contains(d),
        Scale::MajorTriad => set![0int, 4, 7].contains(d),
        Scale::MinorTriad => set![0int, 3, 7].contains(d),
        Scale::DominantSeventh => set![0int, 4, 7, 10].contains(d),
        Scale::DiminishedSeventh => set![0int, 3, 6, 9].contains(d),
        Scale::Octave => set![0int].contains(d),
        Scale::OctaveAndFifth => set![0int, 7].contains(d),
        Scale::Dorian => set![0int, 2, 3, 5, 7, 9, 10].contains(d),
        Scale::Phrygian => set![0int, 1, 3, 5, 7, 8, 10].contains(d),
        Scale::Lydian => set![0int, 2, 4, 6, 7, 9, 11].contains(d),
        Scale::Mixolydian => set![0int, 2, 4, 5, 7, 9, 10].contains(d),
        Scale::Locrian => set![0int, 1, 3, 5, 6, 8, 10].contains(d),
    }
}

/// A scale's degree map rounds each degree to the scale: a degree of the scale stays where it
/// is, and any other degree moves to a degree of the scale (12 being the root an octave up)
/// without passing one on the way, that is to the nearest scale degree below it or to the
/// nearest above it.
pub proof fn lemma_scale_map_rounds_to_scale(scale: Scale, d: int)
    requires
        0 <= d < 12,
    ensures
        0 <= scale_map(scale)[d] <= 12,
        scale_map(scale)[d] == 12 || scale_has_degree(scale, scale_map(scale)[d] as int),
        scale_has_degree(scale, d) ==> scale_map(scale)[d] == d,
        forall|e: int| scale_map(scale)[d] < e < d ==> !#[trigger] scale_has_degree(scale, e),
        forall|e: int| d < e < scale_map(scale)[d] ==> !#[trigger] scale_has_degree(scale, e),
{
    assert(d == 0 || d == 1 || d == 2 || d == 3 || d == 4 || d == 5 || d == 6 || d == 7 || d == 8 || d == 9
        || d == 10 || d == 11);
}

/// Whether note `n` is a note of `scale` in `key`.
pub open spec fn note_in_scale(n: int, scale: Scale, key: Key) -> bool {
    scale_has_degree(scale, (n - key.index()) % 12)
}

/// Adding whole octaves does not change a degree.
proof fn lemma_degree_of_octaves(k: int, x: int)
    requires
        0 <= x < 12,
    ensures
        (k * 12 + x) % 12 == x,
{
    vstd::arithmetic::div_mod::lemma_fundamental_div_mod_converse(k * 12 + x, 12, k, x);
}

/// Quantizing moves a note into the scale, to the nearest note of the scale below it or above
/// it: the result is a note of the scale, a note of the scale stays where it is, and no note of
/// the scale lies strictly between a note and the note it quantizes to.
pub proof fn lemma_quantize_to_scale(n: int, scale: Scale, key: Key)
    requires
        0 <= n <= 127,
    ensures
        note_in_scale(quantize_unclamped(n, scale, key), scale, key),
        note_in_scale(n, scale, key) ==> quantize_unclamped(n, scale, key) == n,
        forall|m: int|
            (n < m < quantize_unclamped(n, scale, key) || quantize_unclamped(n, scale, key) < m < n)
                ==> !#[trigger] note_in_scale(m, scale, key),
{
    let offset = 12 - key.index();
    let shifted = n + offset;
    let d = shifted % 12;
    let oct = shifted / 12;
    assert(shifted == oct * 12 + d);
    let base = oct * 12 - offset;
    let q = scale_map(scale)[d] as int;
    lemma_scale_map_rounds_to_scale(scale, d);
    assert(quantize_unclamped(n, scale, key) == base + q);
    assert(n == base + d);
    // A note `base + x` has degree `x` above the key.
    assert(base - key.index() == (oct - 1) * 12);
    lemma_degree_of_octaves(oct - 1, d);
    assert((n - key.index()) % 12 == d);
    if q == 12 {
        lemma_degree_of_octaves(oct, 0);
        assert(base + q - key.index() == oct * 12 + 0);
        assert(scale_has_degree(scale, 0)) by {
            assert(scale_map(scale)[0] == 0) by {
                lemma_scale_map_rounds_to_scale(scale, 0);
            }
            lemma_scale_map_rounds_to_scale(scale, 0);
        }
    } else {
        lemma_degree_of_octaves(oct - 1, q);
    }
    assert forall|m: int|
        (n < m < quantize_unclamped(n, scale, key) || quantize_unclamped(n, scale, key) < m < n)
            implies !#[trigger] note_in_scale(m, scale, key) by {
        let x = m - base;
        assert(0 <= x < 12);
        lemma_degree_of_octaves(oct - 1, x);
        assert(m - key.index() == (oct - 1) * 12 + x);
        assert(!scale_has_degree(scale, x));
    }
}

/// The keys of the chromatic octave by name, in order from C.
pub open spec fn chromatic_key_names() -> Seq<Seq<char>> {
    seq!["C"@, "C#"@, "D"@, "D#"@, "E"@, "F"@, "F#"@, "G"@, "G#"@, "A"@, "A#"@, "B"@]
}

/// A key's position is its place in the chromatic octave, counted from C, and the key at a
/// position is the key with that position: `from_index` undoes `index`, so stepping a key
/// parameter by one moves to the next key up the chromatic octave.
pub proof fn lemma_key_positions(k: Key)
    ensures
        k.index() < 12,
        chromatic_key_names()[k.index() as int] == k.display_name(),
        Key::from_index(k.index()) == Some(k),
{
}

/// Every position of the chromatic octave holds a key, whose position it is; past `B` there
/// is none.
pub proof fn lemma_key_from_index(v: u8)
    ensures
        v < 12 ==> (Key::from_index(v) matches Some(k) && k.index() == v),
        v >= 12 ==> Key::from_index(v) is None,
{
}

/// `from_index` undoes `index` for scales as well: each scale is found again at its position,
/// and every position of the list holds the scale with that position.
pub proof fn lemma_scale_positions(s: Scale, v: u8)
    ensures
        Scale::from_index(s.index()) == Some(s),
        v < SCALE_COUNT ==> (Scale::from_index(v) matches Some(t) && t.index() == v),
        v >= SCALE_COUNT ==> Scale::from_index(v) is None,
{
}

} // verus!
