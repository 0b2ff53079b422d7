//! The fixed-capacity vectors and strings of the `heapless` crate that the library stores its
//! data in.
//!
//! Each kind of vector gets a name for what it holds, and a wrapper for each operation the
//! library performs on it. The contracts restate what `heapless` documents and implements:
//! `Vec` is a vector with a capacity fixed by its type, that fails a `push` when full instead of
//! growing; `String` is the same for text, counted in bytes. `HistoryBuffer` keeps the last
//! values written to it, overwriting the oldest.
use crate::param::Param;
use crate::sequencer::ScheduledMidiMessage;
use crate::Track;
use crate::TimeDivision;
use crate::Step;
use crate::sequence_generator::SequenceGenerator;
use crate::encoder::PositionalEncoder;
use vstd::prelude::*;

verus! {

#[verifier::external_type_specification]
#[verifier::external_body]
#[verifier::reject_recursive_types(T)]
pub struct ExHeaplessVec<T, const N: usize>(heapless::Vec<T, N>);

/// The steps held by a sequence's vector, in order.
pub uninterp spec fn step_vec_contents(v: heapless::Vec<Option<Step>, 32>) -> Seq<Option<Step>>;

/// `heapless::Vec::new`: an empty vector.
#[verifier::external_body]
pub fn step_vec_new() -> (v: heapless::Vec<Option<Step>, 32>)
    ensures
        step_vec_contents(v) == Seq::<Option<Step>>::empty(),
{
    heapless::Vec::new()
}

/// `heapless::Vec::push`: appends `x`; the vector must not be full.
#[verifier::external_body]
pub fn step_vec_push(v: &mut heapless::Vec<Option<Step>, 32>, x: Option<Step>)
    requires
        step_vec_contents(*old(v)).len() < 32,
    ensures
        step_vec_contents(*final(v)) == step_vec_contents(*old(v)).push(x),
{
    let _ = v.push(x);
}

/// `heapless::Vec::as_slice`: the elements, in order; there are at most 32 of them.
#[verifier::external_body]
pub fn step_vec_as_slice(v: &heapless::Vec<Option<Step>, 32>) -> (r: &[Option<Step>])
    ensures
        r@ == step_vec_contents(*v),
        r@.len() <= 32,
{
    v.as_slice()
}

/// Assigning through `heapless::Vec`'s `IndexMut`: replaces the element at `i`.
#[verifier::external_body]
pub fn step_vec_set(v: &mut heapless::Vec<Option<Step>, 32>, i: usize, x: Option<Step>)
    requires
        i < step_vec_contents(*old(v)).len(),
    ensures
        step_vec_contents(*final(v)) == step_vec_contents(*old(v)).update(i as int, x),
{
    v[i] = x;
}

/// `slice::rotate_left` on the vector's elements: the first `mid` elements move to the end.
#[verifier::external_body]
pub fn step_vec_rotate_left(v: &mut heapless::Vec<Option<Step>, 32>, mid: usize)
    requires
        mid <= step_vec_contents(*old(v)).len(),
    ensures
        step_vec_contents(*final(v)) == step_vec_contents(*old(v)).skip(mid as int)
            + step_vec_contents(*old(v)).take(mid as int),
{
    v.rotate_left(mid);
}

/// `slice::rotate_right` on the vector's elements: the last `k` elements move to the front.
#[verifier::external_body]
pub fn step_vec_rotate_right(v: &mut heapless::Vec<Option<Step>, 32>, k: usize)
    requires
        k <= step_vec_contents(*old(v)).len(),
    ensures
        step_vec_contents(*final(v)) == step_vec_contents(*old(v)).skip(
            step_vec_contents(*old(v)).len() - k,
        ) + step_vec_contents(*old(v)).take(step_vec_contents(*old(v)).len() - k),
{
    v.rotate_right(k);
}

/// `heapless::Vec::clone`: a vector with the same elements (steps are `Copy`).
#[verifier::external_body]
pub fn step_vec_clone(v: &heapless::Vec<Option<Step>, 32>) -> (r: heapless::Vec<Option<Step>, 32>)
    ensures
        step_vec_contents(r) == step_vec_contents(*v),
{
    v.clone()
}


/// The flags held by a step mask, in order.
pub uninterp spec fn mask_contents(v: heapless::Vec<bool, 32>) -> Seq<bool>;

/// `heapless::Vec::new`: an empty mask.
#[verifier::external_body]
pub fn mask_new() -> (v: heapless::Vec<bool, 32>)
    ensures
        mask_contents(v) == Seq::<bool>::empty(),
{
    heapless::Vec::new()
}

/// `heapless::Vec::push`: appends `b`; the mask must not be full.
#[verifier::external_body]
pub fn mask_push(v: &mut heapless::Vec<bool, 32>, b: bool)
    requires
        mask_contents(*old(v)).len() < 32,
    ensures
        mask_contents(*final(v)) == mask_contents(*old(v)).push(b),
{
    let _ = v.push(b);
}

/// `heapless::Vec::as_slice`: the flags, in order; there are at most 32 of them.
#[verifier::external_body]
pub fn mask_as_slice(v: &heapless::Vec<bool, 32>) -> (r: &[bool])
    ensures
        r@ == mask_contents(*v),
        r@.len() <= 32,
{
    v.as_slice()
}


#[verifier::external_type_specification]
#[verifier::external_body]
pub struct ExHeaplessString<const N: usize>(heapless::String<N>);

/// The characters of a short text: a parameter's name, or a value as shown on the display.
pub uninterp spec fn name_contents(s: heapless::String<6>) -> Seq<char>;

/// `heapless::String::from`: a copy of `s`, which must fit in six bytes.
#[verifier::external_body]
pub fn name_from_str(s: &str) -> (r: heapless::String<6>)
    requires
        s.len() <= 6,
    ensures
        name_contents(r) == s@,
{
    heapless::String::from(s)
}

/// `heapless::String::clone`: a copy of the text.
#[verifier::external_body]
pub fn name_clone(s: &heapless::String<6>) -> (r: heapless::String<6>)
    ensures
        name_contents(r) == name_contents(*s),
{
    s.clone()
}

/// `heapless::String::as_str`: the characters of the name.
#[verifier::external_body]
pub fn name_as_str(s: &heapless::String<6>) -> (r: &str)
    ensures
        r@ == name_contents(*s),
{
    s.as_str()
}

/// The parameters held by a parameter list, in order.
pub uninterp spec fn param_list_contents(v: heapless::Vec<Box<Param>, 6>) -> Seq<Param>;

/// `heapless::Vec::new`: an empty parameter list.
#[verifier::external_body]
pub fn param_list_new() -> (v: heapless::Vec<Box<Param>, 6>)
    ensures
        param_list_contents(v) == Seq::<Param>::empty(),
{
    heapless::Vec::new()
}

/// `heapless::Vec::push`: appends `p`; the list must not be full.
#[verifier::external_body]
pub fn param_list_push(v: &mut heapless::Vec<Box<Param>, 6>, p: Param)
    requires
        param_list_contents(*old(v)).len() < 6,
    ensures
        param_list_contents(*final(v)) == param_list_contents(*old(v)).push(p),
{
    let _ = v.push(Box::new(p));
}

/// `heapless::Vec::len`: the number of parameters, at most six.
#[verifier::external_body]
pub fn param_list_len(v: &heapless::Vec<Box<Param>, 6>) -> (r: usize)
    ensures
        r == param_list_contents(*v).len(),
        r <= 6,
{
    v.len()
}

/// Indexing a `heapless::Vec`: the parameter at `i`.
#[verifier::external_body]
pub fn param_list_get(v: &heapless::Vec<Box<Param>, 6>, i: usize) -> (r: &Param)
    requires
        i < param_list_contents(*v).len(),
    ensures
        *r == param_list_contents(*v)[i as int],
{
    &v[i]
}

/// Indexing a `heapless::Vec` mutably: the parameter at `i`, to change in place.
#[verifier::external_body]
pub fn param_list_get_mut(v: &mut heapless::Vec<Box<Param>, 6>, i: usize) -> (r: &mut Param)
    requires
        i < param_list_contents(*old(v)).len(),
    ensures
        *r == param_list_contents(*old(v))[i as int],
        param_list_contents(*final(v)) == param_list_contents(*old(v)).update(i as int, *final(r)),
{
    &mut v[i]
}


/// The track slots held by the sequencer's vector, in order.
pub uninterp spec fn track_vec_contents(v: heapless::Vec<Option<Track>, 16>) -> Seq<Option<Track>>;

/// `heapless::Vec::new`: an empty vector of track slots.
#[verifier::external_body]
pub fn track_vec_new() -> (v: heapless::Vec<Option<Track>, 16>)
    ensures
        track_vec_contents(v) == Seq::<Option<Track>>::empty(),
{
    heapless::Vec::new()
}

/// `heapless::Vec::push`: appends `t`; the vector must not be full.
#[verifier::external_body]
pub fn track_vec_push(v: &mut heapless::Vec<Option<Track>, 16>, t: Option<Track>)
    requires
        track_vec_contents(*old(v)).len() < 16,
    ensures
        track_vec_contents(*final(v)) == track_vec_contents(*old(v)).push(t),
{
    let _ = v.push(t);
}

/// `heapless::Vec::as_slice`: the track slots, in order; there are at most 16 of them.
#[verifier::external_body]
pub fn track_vec_as_slice(v: &heapless::Vec<Option<Track>, 16>) -> (r: &[Option<Track>])
    ensures
        r@ == track_vec_contents(*v),
        r@.len() <= 16,
{
    v.as_slice()
}

/// Indexing a `heapless::Vec` mutably: the track slot at `i`, to change in place.
#[verifier::external_body]
pub fn track_vec_get_mut(v: &mut heapless::Vec<Option<Track>, 16>, i: usize) -> (r: &mut Option<Track>)
    requires
        i < track_vec_contents(*old(v)).len(),
    ensures
        *r == track_vec_contents(*old(v))[i as int],
        track_vec_contents(*final(v)) == track_vec_contents(*old(v)).update(i as int, *final(r)),
{
    &mut v[i]
}

/// The messages held by a vector of scheduled MIDI messages, in order.
pub uninterp spec fn message_vec_contents(v: heapless::Vec<ScheduledMidiMessage, 32>) -> Seq<ScheduledMidiMessage>;

/// `heapless::Vec::new`: an empty vector of messages.
#[verifier::external_body]
pub fn message_vec_new() -> (v: heapless::Vec<ScheduledMidiMessage, 32>)
    ensures
        message_vec_contents(v) == Seq::<ScheduledMidiMessage>::empty(),
{
    heapless::Vec::new()
}

/// `heapless::Vec::push`: appends `m`; the vector must not be full.
#[verifier::external_body]
pub fn message_vec_push(v: &mut heapless::Vec<ScheduledMidiMessage, 32>, m: ScheduledMidiMessage)
    requires
        message_vec_contents(*old(v)).len() < 32,
    ensures
        message_vec_contents(*final(v)) == message_vec_contents(*old(v)).push(m),
{
    let _ = v.push(m);
}

#[verifier::external_type_specification]
#[verifier::external_body]
#[verifier::reject_recursive_types(T)]
pub struct ExHistoryBuffer<T, const N: usize>(heapless::HistoryBuffer<T, N>);

/// The values kept by a history of tick durations, oldest first: the last six written (fewer
/// before six have been written).
pub uninterp spec fn history_contents(h: heapless::HistoryBuffer<u64, 6>) -> Seq<u64>;

/// `HistoryBuffer::new`: an empty history.
#[verifier::external_body]
pub fn history_new() -> (h: heapless::HistoryBuffer<u64, 6>)
    ensures
        history_contents(h) == Seq::<u64>::empty(),
{
    heapless::HistoryBuffer::new()
}

/// `HistoryBuffer::write`: adds `x` as the newest value; when six values are kept already, the
/// oldest is dropped.
#[verifier::external_body]
pub fn history_write(h: &mut heapless::HistoryBuffer<u64, 6>, x: u64)
    ensures
        history_contents(*final(h)) == if history_contents(*old(h)).len() < 6 {
            history_contents(*old(h)).push(x)
        } else {
            history_contents(*old(h)).drop_first().push(x)
        },
{
    h.write(x);
}

/// `HistoryBuffer::len`: the number of values kept.
#[verifier::external_body]
pub fn history_len(h: &heapless::HistoryBuffer<u64, 6>) -> (r: usize)
    ensures
        r == history_contents(*h).len(),
        r <= 6,
{
    h.len()
}

/// `HistoryBuffer::oldest_ordered`, first item: the oldest value kept, if any.
#[verifier::external_body]
pub fn history_oldest(h: &heapless::HistoryBuffer<u64, 6>) -> (r: Option<u64>)
    ensures
        r == if history_contents(*h).len() > 0 {
            Some(history_contents(*h)[0])
        } else {
            None::<u64>
        },
{
    h.oldest_ordered().next().copied()
}

/// `a` holds the values of `b` in the same cyclic order, starting at some position of `b`.
pub open spec fn is_rotation_of(a: Seq<u64>, b: Seq<u64>) -> bool {
    exists|k: int| 0 <= k <= b.len() && a == b.skip(k) + b.take(k)
}

/// `HistoryBuffer::as_slice`: the values kept, as they lie in the buffer: the oldest-first
/// order, rotated so that it starts after the oldest values that the buffer has overwritten
/// in place.
#[verifier::external_body]
pub fn history_as_slice(h: &heapless::HistoryBuffer<u64, 6>) -> (r: &[u64])
    ensures
        is_rotation_of(r@, history_contents(*h)),
{
    h.as_slice()
}

/// The characters of one option of a choice parameter.
pub uninterp spec fn option_chars(s: heapless::String<4>) -> Seq<char>;

/// `heapless::String::new`: an empty option.
#[verifier::external_body]
pub fn option_new() -> (r: heapless::String<4>)
    ensures
        option_chars(r) == Seq::<char>::empty(),
{
    heapless::String::new()
}

/// `heapless::String::push`: appends `c` to an option when the option's bytes and the UTF-8
/// bytes of `c` together fit in four bytes, so that the push finds room.
#[verifier::external_body]
pub fn option_push(s: &mut heapless::String<4>, c: char)
    requires
        crate::text::utf8_len(option_chars(*old(s)).push(c)) <= 4,
    ensures
        option_chars(*final(s)) == option_chars(*old(s)).push(c),
{
    let _ = s.push(c);
}

/// `heapless::String::as_str`: the characters of an option, at most four bytes.
#[verifier::external_body]
pub fn option_as_str(s: &heapless::String<4>) -> (r: &str)
    ensures
        r@ == option_chars(*s),
        r.len() <= 4,
{
    s.as_str()
}

/// The options held by a choice parameter, in order.
pub uninterp spec fn options_contents(v: heapless::Vec<heapless::String<4>, 20>) -> Seq<heapless::String<4>>;

/// `heapless::Vec::new`: no options.
#[verifier::external_body]
pub fn options_new() -> (v: heapless::Vec<heapless::String<4>, 20>)
    ensures
        options_contents(v) == Seq::<heapless::String<4>>::empty(),
{
    heapless::Vec::new()
}

/// `heapless::Vec::push`: appends an option; there must be fewer than 20.
#[verifier::external_body]
pub fn options_push(v: &mut heapless::Vec<heapless::String<4>, 20>, s: heapless::String<4>)
    requires
        options_contents(*old(v)).len() < 20,
    ensures
        options_contents(*final(v)) == options_contents(*old(v)).push(s),
{
    let _ = v.push(s);
}

/// `heapless::Vec::len`: the number of options.
#[verifier::external_body]
pub fn options_len(v: &heapless::Vec<heapless::String<4>, 20>) -> (r: usize)
    ensures
        r == options_contents(*v).len(),
        r <= 20,
{
    v.len()
}

/// Indexing a `heapless::Vec`: the option at `i`.
#[verifier::external_body]
pub fn options_get(v: &heapless::Vec<heapless::String<4>, 20>, i: usize) -> (r: &heapless::String<4>)
    requires
        i < options_contents(*v).len(),
    ensures
        *r == options_contents(*v)[i as int],
{
    &v[i]
}

/// The characters of a parameter's value, as shown to the user.
pub uninterp spec fn label_chars(s: heapless::String<10>) -> Seq<char>;

/// `heapless::String::from`: a copy of `s`, which must fit in ten bytes.
#[verifier::external_body]
pub fn label_from_str(s: &str) -> (r: heapless::String<10>)
    requires
        s.len() <= 10,
    ensures
        label_chars(r) == s@,
{
    heapless::String::from(s)
}

/// `heapless::String::new`: an empty text.
#[verifier::external_body]
pub fn name_new() -> (r: heapless::String<6>)
    ensures
        name_contents(r) == Seq::<char>::empty(),
{
    heapless::String::new()
}

/// `heapless::String::push`: appends the ASCII character `c` to an ASCII text of fewer than
/// six characters (so fewer than six bytes, and the push finds room).
#[verifier::external_body]
pub fn name_push(s: &mut heapless::String<6>, c: char)
    requires
        vstd::utf8::is_ascii_chars(name_contents(*old(s))),
        name_contents(*old(s)).len() < 6,
        '\0' <= c <= '\u{7f}',
    ensures
        name_contents(*final(s)) == name_contents(*old(s)).push(c),
{
    let _ = s.push(c);
}

/// `heapless::String::new`: an empty value text.
#[verifier::external_body]
pub fn label_new() -> (r: heapless::String<10>)
    ensures
        label_chars(r) == Seq::<char>::empty(),
{
    heapless::String::new()
}

/// `heapless::String::push`: appends the ASCII character `c` to an ASCII value text of fewer
/// than ten characters (so fewer than ten bytes, and the push finds room).
#[verifier::external_body]
pub fn label_push(s: &mut heapless::String<10>, c: char)
    requires
        vstd::utf8::is_ascii_chars(label_chars(*old(s))),
        label_chars(*old(s)).len() < 10,
        '\0' <= c <= '\u{7f}',
    ensures
        label_chars(*final(s)) == label_chars(*old(s)).push(c),
{
    let _ = s.push(c);
}

/// The readings of the encoders, in order: how far each has turned since the last reading,
/// if at all.
pub uninterp spec fn encoder_values_contents(v: heapless::Vec<Option<i8>, 6>) -> Seq<Option<i8>>;

/// `heapless::Vec::as_slice`: the readings, in order; there are at most six.
#[verifier::external_body]
pub fn encoder_values_as_slice(v: &heapless::Vec<Option<i8>, 6>) -> (r: &[Option<i8>])
    ensures
        r@ == encoder_values_contents(*v),
        r@.len() <= 6,
{
    v.as_slice()
}

/// `heapless::Vec::new`: no readings.
#[verifier::external_body]
pub fn encoder_values_new() -> (v: heapless::Vec<Option<i8>, 6>)
    ensures
        encoder_values_contents(v) == Seq::<Option<i8>>::empty(),
{
    heapless::Vec::new()
}

/// `heapless::Vec::push`: appends a reading; there must be fewer than six.
#[verifier::external_body]
pub fn encoder_values_push(v: &mut heapless::Vec<Option<i8>, 6>, x: Option<i8>)
    requires
        encoder_values_contents(*old(v)).len() < 6,
    ensures
        encoder_values_contents(*final(v)) == encoder_values_contents(*old(v)).push(x),
{
    let _ = v.push(x);
}

/// The sequence generators held by a vector, one per track, in order.
pub uninterp spec fn generator_vec_contents(v: heapless::Vec<SequenceGenerator, 16>) -> Seq<SequenceGenerator>;

/// `heapless::Vec::len`: the number of generators, at most 16.
#[verifier::external_body]
pub fn generator_vec_len(v: &heapless::Vec<SequenceGenerator, 16>) -> (r: usize)
    ensures
        r == generator_vec_contents(*v).len(),
        r <= 16,
{
    v.len()
}

/// Indexing a `heapless::Vec` mutably: the generator at `i`, to change in place.
#[verifier::external_body]
pub fn generator_vec_get_mut(v: &mut heapless::Vec<SequenceGenerator, 16>, i: usize) -> (r: &mut SequenceGenerator)
    requires
        i < generator_vec_contents(*old(v)).len(),
    ensures
        *r == generator_vec_contents(*old(v))[i as int],
        generator_vec_contents(*final(v)) == generator_vec_contents(*old(v)).update(i as int, *final(r)),
{
    &mut v[i]
}

/// The encoders held by an encoder array, in order.
pub uninterp spec fn encoder_vec_contents(v: heapless::Vec<PositionalEncoder, 6>) -> Seq<PositionalEncoder>;

/// `heapless::Vec::len`: the number of encoders, at most six.
#[verifier::external_body]
pub fn encoder_vec_len(v: &heapless::Vec<PositionalEncoder, 6>) -> (r: usize)
    ensures
        r == encoder_vec_contents(*v).len(),
        r <= 6,
{
    v.len()
}

/// `heapless::Vec::as_slice`: the encoders, in order.
#[verifier::external_body]
pub fn encoder_vec_as_slice(v: &heapless::Vec<PositionalEncoder, 6>) -> (r: &[PositionalEncoder])
    ensures
        r@ == encoder_vec_contents(*v),
{
    v.as_slice()
}

/// Indexing a `heapless::Vec` mutably: the encoder at `i`, to change in place.
#[verifier::external_body]
pub fn encoder_vec_get_mut(v: &mut heapless::Vec<PositionalEncoder, 6>, i: usize) -> (r: &mut PositionalEncoder)
    requires
        i < encoder_vec_contents(*old(v)).len(),
    ensures
        *r == encoder_vec_contents(*old(v))[i as int],
        encoder_vec_contents(*final(v)) == encoder_vec_contents(*old(v)).update(i as int, *final(r)),
{
    &mut v[i]
}

/// The time divisions held by a vector, in order.
pub uninterp spec fn division_vec_contents(v: heapless::Vec<TimeDivision, 5>) -> Seq<TimeDivision>;

/// `heapless::Vec::new`: no time divisions.
#[verifier::external_body]
pub fn division_vec_new() -> (v: heapless::Vec<TimeDivision, 5>)
    ensures
        division_vec_contents(v) == Seq::<TimeDivision>::empty(),
{
    heapless::Vec::new()
}

/// `heapless::Vec::push`: appends a time division; there must be fewer than five.
#[verifier::external_body]
pub fn division_vec_push(v: &mut heapless::Vec<TimeDivision, 5>, d: TimeDivision)
    requires
        division_vec_contents(*old(v)).len() < 5,
    ensures
        division_vec_contents(*final(v)) == division_vec_contents(*old(v)).push(d),
{
    let _ = v.push(d);
}

} // verus!
