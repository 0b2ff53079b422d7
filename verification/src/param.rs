//! Parameters: named values that the user changes with the encoders, each with a range.
use crate::arith::trunc_rem;
use crate::machine::grids_rhythm_machine::Instrument;
use crate::machine::{MelodyMachineId, RhythmMachineId};
use crate::midi::Note;
use crate::part::Part;
use crate::quantizer::{Key, Scale};
use crate::sequencer::Swing;
use crate::storage::{name_as_str, name_contents, name_from_str, param_list_contents};
use crate::TimeDivision;
use vstd::prelude::*;
use vstd::std_specs::convert::{FromSpecImpl, TryFromSpecImpl};

verus! {

/// `a + b`, wrapped into the range `0..=max`. The result is Rust's `((a + b % size) + size) %
/// size` with `size = max + 1`.
pub open spec fn wrapping_add_spec(a: int, b: int, max: int) -> int {
    let size = max + 1;
    trunc_rem(a + trunc_rem(b, size) + size, size)
}

/// True when `wrapping_add(a, b, max)` computes without overflow.
pub open spec fn wrapping_add_in_bounds(a: int, b: int, max: int) -> bool {
    let size = max + 1;
    &&& 0 <= max < i32::MAX
    &&& i32::MIN <= a + trunc_rem(b, size) <= i32::MAX
    &&& i32::MIN <= a + trunc_rem(b, size) + size <= i32::MAX
}

/// Add `b` to `a`, wrapping around in the range `0..=max`: one past `max` is `0`, one below
/// `0` is `max`.
pub fn wrapping_add(a: i32, b: i32, max: i32) -> (r: i32)
    requires
        wrapping_add_in_bounds(a as int, b as int, max as int),
    ensures
        r == wrapping_add_spec(a as int, b as int, max as int),
{
    let size = max + 1;
    ((a + b % size) + size) % size
}

/// Rust's remainder differs from the Euclidean one by a multiple of the divisor.
proof fn lemma_trunc_rem_congruent(b: int, size: int)
    requires
        size > 0,
    ensures
        exists|k: int| #[trigger] (k * size) == b - trunc_rem(b, size),
        -size < trunc_rem(b, size) < size,
{
    if b >= 0 {
        assert((b / size) * size == b - b % size) by (nonlinear_arith)
            requires size > 0, b >= 0;
        assert(((b / size) * size) == b - trunc_rem(b, size));
    } else {
        let nb = -b;
        assert((nb / size) * size == nb - nb % size) by (nonlinear_arith)
            requires size > 0, nb >= 0;
        assert(((-(nb / size)) * size) == b - trunc_rem(b, size)) by (nonlinear_arith)
            requires (nb / size) * size == nb - nb % size, nb == -b, trunc_rem(b, size) == -(nb % size);
    }
}

/// Wrapping a value that is already in `0..=max` gives the Euclidean remainder of the sum, so
/// it stays in `0..=max`: adding past the end comes back at the start, and below the start
/// comes back at the end.
pub proof fn lemma_wrapping_add_in_range(a: int, b: int, max: int)
    requires
        0 <= a <= max,
    ensures
        wrapping_add_spec(a, b, max) == (a + b) % (max + 1),
        0 <= wrapping_add_spec(a, b, max) <= max,
{
    let size = max + 1;
    let t = trunc_rem(b, size);
    lemma_trunc_rem_congruent(b, size);
    let k = choose|k: int| #[trigger] (k * size) == b - t;
    let x = a + t + size;
    assert(x >= 0);
    assert(trunc_rem(x, size) == x % size);
    assert(x == (a + b) + (1 - k) * size) by (nonlinear_arith)
        requires k * size == b - t, x == a + t + size;
    vstd::arithmetic::div_mod::lemma_mod_multiples_vanish(1 - k, a + b, size);
    assert((size * (1 - k) + (a + b)) % size == (a + b) % size);
    assert(size * (1 - k) == (1 - k) * size) by (nonlinear_arith);
}

/// A parameter's value. The variant says what kind of value the parameter holds.
#[derive(Clone, Copy, Debug, PartialEq, Eq, Structural)]
pub enum ParamValue {
    Number(u8),
    TimeDivision(TimeDivision),
    RhythmMachineId(RhythmMachineId),
    MelodyMachineId(MelodyMachineId),
    Note(Note),
    Scale(Scale),
    Key(Key),
    Swing(Swing),
    Part(Part),
    Instrument(Instrument),
}

impl ParamValue {
    /// The value as a number: the number itself, the note number, or the position of the
    /// option in its list.
    pub open spec fn ordinal(self) -> u8 {
        match self {
            ParamValue::Number(n) => n,
            ParamValue::TimeDivision(t) => t.index(),
            ParamValue::RhythmMachineId(id) => id.index(),
            ParamValue::MelodyMachineId(id) => id.index(),
            ParamValue::Note(n) => n.value(),
            ParamValue::Scale(s) => s.index(),
            ParamValue::Key(k) => k.index(),
            ParamValue::Swing(s) => s.index(),
            ParamValue::Part(p) => p.index(),
            ParamValue::Instrument(i) => i.index(),
        }
    }

    /// The value of the same kind as `self` whose number is `v`, if there is one. Any number
    /// is a number; a note number must be at most 127; an option must be in its list.
    pub open spec fn with_ordinal(self, v: u8) -> Option<ParamValue> {
        match self {
            ParamValue::Number(_) => Some(ParamValue::Number(v)),
            ParamValue::TimeDivision(_) => match TimeDivision::from_index(v) {
                Some(t) => Some(ParamValue::TimeDivision(t)),
                None => None,
            },
            ParamValue::RhythmMachineId(_) => match RhythmMachineId::from_index(v) {
                Some(m) => Some(ParamValue::RhythmMachineId(m)),
                None => None,
            },
            ParamValue::MelodyMachineId(_) => match MelodyMachineId::from_index(v) {
                Some(m) => Some(ParamValue::MelodyMachineId(m)),
                None => None,
            },
            ParamValue::Note(_) => if v <= 127 {
                Some(ParamValue::Note(Note::from_value(v)))
            } else {
                None
            },
            ParamValue::Scale(_) => match Scale::from_index(v) {
                Some(s) => Some(ParamValue::Scale(s)),
                None => None,
            },
            ParamValue::Key(_) => match Key::from_index(v) {
                Some(k) => Some(ParamValue::Key(k)),
                None => None,
            },
            ParamValue::Swing(_) => match Swing::from_index(v) {
                Some(s) => Some(ParamValue::Swing(s)),
                None => None,
            },
            ParamValue::Part(_) => match Part::from_index(v) {
                Some(p) => Some(ParamValue::Part(p)),
                None => None,
            },
            ParamValue::Instrument(_) => match Instrument::from_index(v) {
                Some(i) => Some(ParamValue::Instrument(i)),
                None => None,
            },
        }
    }

    /// The value as shown on the display: numbers (and note numbers) in decimal, the swing as
    /// its percentage, and the others by name.
    pub open spec fn label_chars(self) -> Seq<char> {
        match self {
            ParamValue::Number(n) => crate::text::decimal(n as int),
            ParamValue::TimeDivision(t) => t.display_name(),
            ParamValue::RhythmMachineId(id) => id.display_name(),
            ParamValue::MelodyMachineId(id) => id.display_name(),
            ParamValue::Note(n) => crate::text::decimal(n.value() as int),
            ParamValue::Scale(s) => s.display_name(),
            ParamValue::Key(k) => k.display_name(),
            ParamValue::Swing(s) => crate::text::decimal(s.percentage() as int),
            ParamValue::Part(p) => p.display_name(),
            ParamValue::Instrument(i) => i.display_name(),
        }
    }

    /// The value as shown on the display (see `label_chars`).
    pub fn label(&self) -> (r: heapless::String<6>)
        ensures
            name_contents(r) == self.label_chars(),
    {
        let name: &str = match self {
            ParamValue::Number(n) => return crate::text::decimal_name(*n),
            ParamValue::Note(n) => return crate::text::decimal_name(n.number()),
            ParamValue::Swing(s) => return crate::text::decimal_name(s.as_percentage()),
            ParamValue::TimeDivision(t) => {
                proof {
                    t.lemma_display_name_short();
                }
                t.name()
            },
            ParamValue::RhythmMachineId(id) => {
                proof {
                    id.lemma_display_name_short();
                }
                id.name()
            },
            ParamValue::MelodyMachineId(id) => {
                proof {
                    id.lemma_display_name_short();
                }
                id.name()
            },
            ParamValue::Scale(sc) => {
                proof {
                    sc.lemma_display_name_short();
                }
                sc.name()
            },
            ParamValue::Key(k) => {
                proof {
                    k.lemma_display_name_short();
                }
                k.name()
            },
            ParamValue::Part(p) => {
                proof {
                    p.lemma_display_name_short();
                }
                p.name()
            },
            ParamValue::Instrument(i) => {
                proof {
                    i.lemma_display_name_short();
                }
                i.name()
            },
        };
        proof {
            crate::text::lemma_ascii_len(name);
        }
        name_from_str(name)
    }

    /// The value as a number: the number itself, the note number, or the position of the
    /// option in its list.
    pub fn to_u8(self) -> (r: u8)
        ensures
            r == self.ordinal(),
    {
        match self {
            ParamValue::Number(n) => n,
            ParamValue::TimeDivision(t) => t.to_u8(),
            ParamValue::RhythmMachineId(id) => id.to_u8(),
            ParamValue::MelodyMachineId(id) => id.to_u8(),
            ParamValue::Note(n) => n.number(),
            ParamValue::Scale(s) => s.to_u8(),
            ParamValue::Key(k) => k.to_u8(),
            ParamValue::Swing(s) => s.to_u8(),
            ParamValue::Part(p) => p.to_u8(),
            ParamValue::Instrument(i) => i.to_u8(),
        }
    }
}

impl From<ParamValue> for i32 {
    /// The value as a number: the number itself, the note number, or the position of the
    /// option in its list.
    fn from(value: ParamValue) -> (r: i32) {
        let n: u8 = value.to_u8();
        n as i32
    }
}

impl FromSpecImpl<ParamValue> for i32 {
    open spec fn obeys_from_spec() -> bool {
        true
    }

    open spec fn from_spec(v: ParamValue) -> i32 {
        v.ordinal() as i32
    }
}

/// A parameter value of the wrong kind, or a number that no value of the parameter's kind has.
#[derive(Clone, Copy, Debug, PartialEq, Eq, Structural)]
pub enum ParamError {
    ValueError,
}

impl TryFrom<ParamValue> for u8 {
    type Error = ParamError;

    /// The number of a `Number` value.
    fn try_from(value: ParamValue) -> (r: Result<u8, ParamError>) {
        match value {
            ParamValue::Number(n) => Ok(n),
            _ => Err(ParamError::ValueError),
        }
    }
}

impl TryFromSpecImpl<ParamValue> for u8 {
    open spec fn obeys_try_from_spec() -> bool {
        true
    }

    open spec fn try_from_spec(v: ParamValue) -> Result<u8, ParamError> {
        match v {
            ParamValue::Number(n) => Ok(n),
            _ => Err(ParamError::ValueError),
        }
    }
}

impl TryFrom<ParamValue> for TimeDivision {
    type Error = ParamError;

    /// The time division of a `TimeDivision` value.
    fn try_from(value: ParamValue) -> (r: Result<TimeDivision, ParamError>) {
        match value {
            ParamValue::TimeDivision(t) => Ok(t),
            _ => Err(ParamError::ValueError),
        }
    }
}

impl TryFromSpecImpl<ParamValue> for TimeDivision {
    open spec fn obeys_try_from_spec() -> bool {
        true
    }

    open spec fn try_from_spec(v: ParamValue) -> Result<TimeDivision, ParamError> {
        match v {
            ParamValue::TimeDivision(t) => Ok(t),
            _ => Err(ParamError::ValueError),
        }
    }
}

impl TryFrom<ParamValue> for RhythmMachineId {
    type Error = ParamError;

    /// The machine of a `RhythmMachineId` value.
    fn try_from(value: ParamValue) -> (r: Result<RhythmMachineId, ParamError>) {
        match value {
            ParamValue::RhythmMachineId(m) => Ok(m),
            _ => Err(ParamError::ValueError),
        }
    }
}

impl TryFromSpecImpl<ParamValue> for RhythmMachineId {
    open spec fn obeys_try_from_spec() -> bool {
        true
    }

    open spec fn try_from_spec(v: ParamValue) -> Result<RhythmMachineId, ParamError> {
        match v {
            ParamValue::RhythmMachineId(m) => Ok(m),
            _ => Err(ParamError::ValueError),
        }
    }
}

impl TryFrom<ParamValue> for MelodyMachineId {
    type Error = ParamError;

    /// The machine of a `MelodyMachineId` value.
    fn try_from(value: ParamValue) -> (r: Result<MelodyMachineId, ParamError>) {
        match value {
            ParamValue::MelodyMachineId(m) => Ok(m),
            _ => Err(ParamError::ValueError),
        }
    }
}

impl TryFromSpecImpl<ParamValue> for MelodyMachineId {
    open spec fn obeys_try_from_spec() -> bool {
        true
    }

    open spec fn try_from_spec(v: ParamValue) -> Result<MelodyMachineId, ParamError> {
        match v {
            ParamValue::MelodyMachineId(m) => Ok(m),
            _ => Err(ParamError::ValueError),
        }
    }
}

impl TryFrom<ParamValue> for Note {
    type Error = ParamError;

    /// The note of a `Note` value.
    fn try_from(value: ParamValue) -> (r: Result<Note, ParamError>) {
        match value {
            ParamValue::Note(n) => Ok(n),
            _ => Err(ParamError::ValueError),
        }
    }
}

impl TryFromSpecImpl<ParamValue> for Note {
    open spec fn obeys_try_from_spec() -> bool {
        true
    }

    open spec fn try_from_spec(v: ParamValue) -> Result<Note, ParamError> {
        match v {
            ParamValue::Note(n) => Ok(n),
            _ => Err(ParamError::ValueError),
        }
    }
}

impl TryFrom<ParamValue> for Scale {
    type Error = ParamError;

    /// The scale of a `Scale` value.
    fn try_from(value: ParamValue) -> (r: Result<Scale, ParamError>) {
        match value {
            ParamValue::Scale(s) => Ok(s),
            _ => Err(ParamError::ValueError),
        }
    }
}

impl TryFromSpecImpl<ParamValue> for Scale {
    open spec fn obeys_try_from_spec() -> bool {
        true
    }

    open spec fn try_from_spec(v: ParamValue) -> Result<Scale, ParamError> {
        match v {
            ParamValue::Scale(s) => Ok(s),
            _ => Err(ParamError::ValueError),
        }
    }
}

impl TryFrom<ParamValue> for Key {
    type Error = ParamError;

    /// The key of a `Key` value.
    fn try_from(value: ParamValue) -> (r: Result<Key, ParamError>) {
        match value {
            ParamValue::Key(k) => Ok(k),
            _ => Err(ParamError::ValueError),
        }
    }
}

impl TryFromSpecImpl<ParamValue> for Key {
    open spec fn obeys_try_from_spec() -> bool {
        true
    }

    open spec fn try_from_spec(v: ParamValue) -> Result<Key, ParamError> {
        match v {
            ParamValue::Key(k) => Ok(k),
            _ => Err(ParamError::ValueError),
        }
    }
}

impl TryFrom<ParamValue> for Swing {
    type Error = ParamError;

    /// The swing of a `Swing` value.
    fn try_from(value: ParamValue) -> (r: Result<Swing, ParamError>) {
        match value {
            ParamValue::Swing(s) => Ok(s),
            _ => Err(ParamError::ValueError),
        }
    }
}

impl TryFromSpecImpl<ParamValue> for Swing {
    open spec fn obeys_try_from_spec() -> bool {
        true
    }

    open spec fn try_from_spec(v: ParamValue) -> Result<Swing, ParamError> {
        match v {
            ParamValue::Swing(s) => Ok(s),
            _ => Err(ParamError::ValueError),
        }
    }
}

impl TryFrom<ParamValue> for Part {
    type Error = ParamError;

    /// The part of a `Part` value.
    fn try_from(value: ParamValue) -> (r: Result<Part, ParamError>) {
        match value {
            ParamValue::Part(p) => Ok(p),
            _ => Err(ParamError::ValueError),
        }
    }
}

impl TryFromSpecImpl<ParamValue> for Part {
    open spec fn obeys_try_from_spec() -> bool {
        true
    }

    open spec fn try_from_spec(v: ParamValue) -> Result<Part, ParamError> {
        match v {
            ParamValue::Part(p) => Ok(p),
            _ => Err(ParamError::ValueError),
        }
    }
}

impl TryFrom<ParamValue> for Instrument {
    type Error = ParamError;

    /// The instrument of an `Instrument` value.
    fn try_from(value: ParamValue) -> (r: Result<Instrument, ParamError>) {
        match value {
            ParamValue::Instrument(i) => Ok(i),
            _ => Err(ParamError::ValueError),
        }
    }
}

impl TryFromSpecImpl<ParamValue> for Instrument {
    open spec fn obeys_try_from_spec() -> bool {
        true
    }

    open spec fn try_from_spec(v: ParamValue) -> Result<Instrument, ParamError> {
        match v {
            ParamValue::Instrument(i) => Ok(i),
            _ => Err(ParamError::ValueError),
        }
    }
}

/// A parameter's name: at most six bytes.
pub type ParamName = heapless::String<6>;

/// A named parameter with a value and the range of values it steps through.
#[derive(Debug)]
pub struct Param {
    name: ParamName,
    value: ParamValue,
    min: ParamValue,
    max: ParamValue,
}

impl Clone for Param {
    /// A copy of the parameter: the same name, value and range.
    fn clone(&self) -> (r: Param)
        ensures
            r.spec_name() == self.spec_name(),
            r.spec_value() == self.spec_value(),
            r.spec_min() == self.spec_min(),
            r.spec_max() == self.spec_max(),
    {
        proof {
            use_type_invariant(self);
        }
        Param { name: crate::storage::name_clone(&self.name), value: self.value, min: self.min, max: self.max }
    }
}

/// The list of parameters of a track, a machine or the sequencer.
pub type ParamList = heapless::Vec<Box<Param>, 6>;

/// The parameters held by `list`, in order.
pub open spec fn params_of(list: ParamList) -> Seq<Param> {
    param_list_contents(list)
}

/// `increment` moves a parameter to this number: `value` moves `n` places through the range
/// `min..=max`, wrapping around at its ends, and is truncated to a byte.
pub open spec fn increment_target(value: int, min: int, max: int, n: int) -> u8 {
    (wrapping_add_spec(value - min, n, max - min) + min) as u8
}

impl Param {
    #[verifier::type_invariant]
    spec fn inv(self) -> bool {
        self.min.ordinal() <= self.max.ordinal()
    }

    /// The parameter's name.
    pub closed spec fn spec_name(self) -> Seq<char> {
        name_contents(self.name)
    }

    /// The parameter's value.
    pub closed spec fn spec_value(self) -> ParamValue {
        self.value
    }

    /// The lowest value of the parameter's range.
    pub closed spec fn spec_min(self) -> ParamValue {
        self.min
    }

    /// The highest value of the parameter's range.
    pub closed spec fn spec_max(self) -> ParamValue {
        self.max
    }

    /// `self` with its value replaced by `value`.
    pub closed spec fn with_value(self, value: ParamValue) -> Param {
        Param { value, ..self }
    }

    /// Replacing the value keeps the name and the range, and the value is the one given.
    pub proof fn lemma_with_value(self, value: ParamValue)
        ensures
            #[trigger] self.with_value(value).spec_value() == value,
            self.with_value(value).spec_name() == self.spec_name(),
            self.with_value(value).spec_min() == self.spec_min(),
            self.with_value(value).spec_max() == self.spec_max(),
    {
    }

    /// A number parameter with range `min..=max`, starting at `default`.
    pub fn new_number_param(name: &str, min: u8, max: u8, default: u8) -> (r: Param)
        requires
            name.len() <= 6,
            min <= default <= max,
        ensures
            r.spec_name() == name@,
            r.spec_value() == ParamValue::Number(default),
            r.spec_min() == ParamValue::Number(min),
            r.spec_max() == ParamValue::Number(max),
    {
        Param {
            name: name_from_str(name),
            value: ParamValue::Number(default),
            min: ParamValue::Number(min),
            max: ParamValue::Number(max),
        }
    }

    /// A time division parameter, from thirty-seconds to whole notes, starting at sixteenths.
    pub fn new_time_division_param(name: &str) -> (r: Param)
        requires
            name.len() <= 6,
        ensures
            r.spec_name() == name@,
            r.spec_value() == ParamValue::TimeDivision(TimeDivision::Sixteenth),
            r.spec_min() == ParamValue::TimeDivision(TimeDivision::ThirtySecond),
            r.spec_max() == ParamValue::TimeDivision(TimeDivision::Whole),
    {
        Param {
            name: name_from_str(name),
            value: ParamValue::TimeDivision(TimeDivision::default()),
            min: ParamValue::TimeDivision(TimeDivision::ThirtySecond),
            max: ParamValue::TimeDivision(TimeDivision::Whole),
        }
    }

    /// A rhythm machine parameter, from `Unit` to `Euclid`, starting at the default (`Euclid`).
    pub fn new_rhythm_machine_id_param(name: &str) -> (r: Param)
        requires
            name.len() <= 6,
        ensures
            r.spec_name() == name@,
            r.spec_value() == ParamValue::RhythmMachineId(RhythmMachineId::Euclid),
            r.spec_min() == ParamValue::RhythmMachineId(RhythmMachineId::Unit),
            r.spec_max() == ParamValue::RhythmMachineId(RhythmMachineId::Euclid),
    {
        Param {
            name: name_from_str(name),
            value: ParamValue::RhythmMachineId(RhythmMachineId::default()),
            min: ParamValue::RhythmMachineId(RhythmMachineId::Unit),
            max: ParamValue::RhythmMachineId(RhythmMachineId::Euclid),
        }
    }

    /// A melody machine parameter, over all melody machines, starting at the default one.
    pub fn new_melody_machine_id_param(name: &str) -> (r: Param)
        requires
            name.len() <= 6,
        ensures
            r.spec_name() == name@,
            r.spec_value() == ParamValue::MelodyMachineId(MelodyMachineId::Rand),
            r.spec_min() == ParamValue::MelodyMachineId(MelodyMachineId::Unit),
            r.spec_max() == ParamValue::MelodyMachineId(MelodyMachineId::Rand),
    {
        Param {
            name: name_from_str(name),
            value: ParamValue::MelodyMachineId(MelodyMachineId::default()),
            min: ParamValue::MelodyMachineId(MelodyMachineId::Unit),
            max: ParamValue::MelodyMachineId(MelodyMachineId::Rand),
        }
    }

    /// A note parameter, over all MIDI notes, starting at middle C.
    pub fn new_note_param(name: &str) -> (r: Param)
        requires
            name.len() <= 6,
        ensures
            r.spec_name() == name@,
            r.spec_value() matches ParamValue::Note(n) && n.value() == 60,
            r.spec_min() matches ParamValue::Note(n) && n.value() == 0,
            r.spec_max() matches ParamValue::Note(n) && n.value() == 127,
    {
        let lowest = match Note::new(0) {
            Ok(n) => n,
            Err(_) => {
                assert(false);
                Note::default()
            },
        };
        let highest = match Note::new(127) {
            Ok(n) => n,
            Err(_) => {
                assert(false);
                Note::default()
            },
        };
        Param {
            name: name_from_str(name),
            value: ParamValue::Note(Note::default()),
            min: ParamValue::Note(lowest),
            max: ParamValue::Note(highest),
        }
    }

    /// A scale parameter, over all scales, starting at `Chromatic` (quantizing off).
    pub fn new_scale_param(name: &str) -> (r: Param)
        requires
            name.len() <= 6,
        ensures
            r.spec_name() == name@,
            r.spec_value() == ParamValue::Scale(Scale::Chromatic),
            r.spec_min() == ParamValue::Scale(Scale::Chromatic),
            r.spec_max() == ParamValue::Scale(Scale::OctaveAndFifth),
    {
        Param {
            name: name_from_str(name),
            value: ParamValue::Scale(Scale::default()),
            min: ParamValue::Scale(Scale::Chromatic),
            max: ParamValue::Scale(Scale::OctaveAndFifth),
        }
    }

    /// A key parameter, from C to B, starting at C.
    pub fn new_key_param(name: &str) -> (r: Param)
        requires
            name.len() <= 6,
        ensures
            r.spec_name() == name@,
            r.spec_value() == ParamValue::Key(Key::C),
            r.spec_min() == ParamValue::Key(Key::C),
            r.spec_max() == ParamValue::Key(Key::B),
    {
        Param {
            name: name_from_str(name),
            value: ParamValue::Key(Key::default()),
            min: ParamValue::Key(Key::C),
            max: ParamValue::Key(Key::B),
        }
    }

    /// A swing parameter, from no swing to 75%, starting at no swing.
    pub fn new_swing_param(name: &str) -> (r: Param)
        requires
            name.len() <= 6,
        ensures
            r.spec_name() == name@,
            r.spec_value() == ParamValue::Swing(Swing::Mpc50),
            r.spec_min() == ParamValue::Swing(Swing::Mpc50),
            r.spec_max() == ParamValue::Swing(Swing::Mpc75),
    {
        Param {
            name: name_from_str(name),
            value: ParamValue::Swing(Swing::default()),
            min: ParamValue::Swing(Swing::Mpc50),
            max: ParamValue::Swing(Swing::Mpc75),
        }
    }

    /// A part parameter, over all parts, starting at the whole sequence.
    pub fn new_part_param(name: &str) -> (r: Param)
        requires
            name.len() <= 6,
        ensures
            r.spec_name() == name@,
            r.spec_value() == ParamValue::Part(Part::Sequence),
            r.spec_min() == ParamValue::Part(Part::Sequence),
            r.spec_max() == ParamValue::Part(Part::Turnaround),
    {
        Param {
            name: name_from_str(name),
            value: ParamValue::Part(Part::default()),
            min: ParamValue::Part(Part::Sequence),
            max: ParamValue::Part(Part::Turnaround),
        }
    }

    /// An instrument parameter, from bass drum to hi-hat, starting at the bass drum.
    pub fn new_instrument_param(name: &str) -> (r: Param)
        requires
            name.len() <= 6,
        ensures
            r.spec_name() == name@,
            r.spec_value() == ParamValue::Instrument(Instrument::BD),
            r.spec_min() == ParamValue::Instrument(Instrument::BD),
            r.spec_max() == ParamValue::Instrument(Instrument::HH),
    {
        Param {
            name: name_from_str(name),
            value: ParamValue::Instrument(Instrument::default()),
            min: ParamValue::Instrument(Instrument::BD),
            max: ParamValue::Instrument(Instrument::HH),
        }
    }

    /// The parameter's name.
    pub fn name(&self) -> (r: &str)
        ensures
            r@ == self.spec_name(),
    {
        name_as_str(&self.name)
    }

    /// The parameter's value.
    pub fn value(&self) -> (r: ParamValue)
        ensures
            r == self.spec_value(),
    {
        self.value
    }

    /// Replace the value. The new value is not checked against the range or the kind.
    pub fn set(&mut self, new_value: ParamValue)
        ensures
            *final(self) == old(self).with_value(new_value),
            final(self).spec_value() == new_value,
            final(self).spec_name() == old(self).spec_name(),
            final(self).spec_min() == old(self).spec_min(),
            final(self).spec_max() == old(self).spec_max(),
    {
        proof {
            use_type_invariant(&*self);
        }
        self.value = new_value;
    }

    /// Set the value to the value of the same kind whose number is `new_value`. Fails, leaving
    /// the value as it was, when the kind has no value with that number.
    pub fn set_from_u8(&mut self, new_value: u8) -> (r: Result<(), ParamError>)
        ensures
            match old(self).spec_value().with_ordinal(new_value) {
                Some(v) => r is Ok && *final(self) == old(self).with_value(v),
                None => r == Err::<(), ParamError>(ParamError::ValueError) && *final(self) == *old(self),
            },
    {
        proof {
            use_type_invariant(&*self);
        }
        match self.value {
            ParamValue::Number(_) => {
                self.value = ParamValue::Number(new_value);
                Ok(())
            },
            ParamValue::TimeDivision(_) => match TimeDivision::try_from(new_value) {
                Ok(val) => {
                    self.value = ParamValue::TimeDivision(val);
                    Ok(())
                },
                Err(_) => Err(ParamError::ValueError),
            },
            ParamValue::RhythmMachineId(_) => match RhythmMachineId::try_from(new_value) {
                Ok(val) => {
                    self.value = ParamValue::RhythmMachineId(val);
                    Ok(())
                },
                Err(_) => Err(ParamError::ValueError),
            },
            ParamValue::MelodyMachineId(_) => match MelodyMachineId::try_from(new_value) {
                Ok(val) => {
                    self.value = ParamValue::MelodyMachineId(val);
                    Ok(())
                },
                Err(_) => Err(ParamError::ValueError),
            },
            ParamValue::Note(_) => match Note::new(new_value) {
                Ok(val) => {
                    self.value = ParamValue::Note(val);
                    Ok(())
                },
                Err(_) => Err(ParamError::ValueError),
            },
            ParamValue::Scale(_) => match Scale::try_from(new_value) {
                Ok(val) => {
                    self.value = ParamValue::Scale(val);
                    Ok(())
                },
                Err(_) => Err(ParamError::ValueError),
            },
            ParamValue::Key(_) => match Key::try_from(new_value) {
                Ok(val) => {
                    self.value = ParamValue::Key(val);
                    Ok(())
                },
                Err(_) => Err(ParamError::ValueError),
            },
            ParamValue::Swing(_) => match Swing::try_from(new_value) {
                Ok(val) => {
                    self.value = ParamValue::Swing(val);
                    Ok(())
                },
                Err(_) => Err(ParamError::ValueError),
            },
            ParamValue::Part(_) => match Part::try_from(new_value) {
                Ok(val) => {
                    self.value = ParamValue::Part(val);
                    Ok(())
                },
                Err(_) => Err(ParamError::ValueError),
            },
            ParamValue::Instrument(_) => match Instrument::try_from(new_value) {
                Ok(val) => {
                    self.value = ParamValue::Instrument(val);
                    Ok(())
                },
                Err(_) => Err(ParamError::ValueError),
            },
        }
    }

    /// Move the value `n` places through the parameter's range, wrapping around at its ends.
    pub fn increment(&mut self, n: i32) -> (r: Result<(), ParamError>)
        ensures
            ({
                let target = increment_target(
                    old(self).spec_value().ordinal() as int,
                    old(self).spec_min().ordinal() as int,
                    old(self).spec_max().ordinal() as int,
                    n as int,
                );
                match old(self).spec_value().with_ordinal(target) {
                    Some(v) => r is Ok && *final(self) == old(self).with_value(v),
                    None => r == Err::<(), ParamError>(ParamError::ValueError) && *final(self)
                        == *old(self),
                }
            }),
    {
        proof {
            use_type_invariant(&*self);
        }
        let value_i32: i32 = i32::from(self.value);
        let min_i32: i32 = i32::from(self.min);
        let max_i32: i32 = i32::from(self.max);
        proof {
            crate::arith::lemma_trunc_rem_bounds(n as int, (max_i32 - min_i32 + 1) as int);
        }
        let new_value = (wrapping_add(value_i32 - min_i32, n, max_i32 - min_i32) + min_i32) as u8;
        self.set_from_u8(new_value)
    }
}


/// Incrementing a value that is in its range keeps it in the range: the value moves `n` places
/// around the cycle `min..=max`.
pub proof fn lemma_increment_stays_in_range(value: int, min: int, max: int, n: int)
    requires
        0 <= min <= value <= max <= 255,
    ensures
        increment_target(value, min, max, n) == min + (value - min + n) % (max - min + 1),
        min <= increment_target(value, min, max, n) <= max,
{
    lemma_wrapping_add_in_range(value - min, n, max - min);
}

/// Incrementing by `n` and then by `-n` gives back the value: the second step undoes the
/// first, for any value in its range.
pub proof fn lemma_increment_undo(value: int, min: int, max: int, n: int)
    requires
        0 <= min <= value <= max <= 255,
    ensures
        increment_target(increment_target(value, min, max, n) as int, min, max, -n) == value,
{
    let size = max - min + 1;
    lemma_increment_stays_in_range(value, min, max, n);
    let v1 = increment_target(value, min, max, n) as int;
    lemma_increment_stays_in_range(v1, min, max, -n);
    let a = value - min;
    assert(v1 - min == (a + n) % size);
    vstd::arithmetic::div_mod::lemma_fundamental_div_mod(a + n, size);
    let q = (a + n) / size;
    assert(a + n == size * q + (a + n) % size);
    assert((v1 - min) + (-n) == a + size * (-q)) by (nonlinear_arith)
        requires a + n == size * q + (v1 - min);
    vstd::arithmetic::div_mod::lemma_mod_multiples_vanish(-q, a, size);
    assert((size * (-q) + a) % size == a % size);
    vstd::arithmetic::div_mod::lemma_small_mod(a as nat, size as nat);
}

/// Incrementing by the size of the range goes all the way round, back to the same value.
pub proof fn lemma_increment_full_cycle(value: int, min: int, max: int)
    requires
        0 <= min <= value <= max <= 255,
    ensures
        increment_target(value, min, max, max - min + 1) == value,
{
    let size = max - min + 1;
    let a = value - min;
    lemma_increment_stays_in_range(value, min, max, size);
    vstd::arithmetic::div_mod::lemma_mod_multiples_vanish(1, a, size);
    assert(size * 1 + a == a + size);
    vstd::arithmetic::div_mod::lemma_small_mod(a as nat, size as nat);
}

} // verus!
