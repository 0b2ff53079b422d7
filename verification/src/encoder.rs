//! Counting the turns of rotary encoders between readings.
use crate::input::EncoderValues;
use crate::storage::{
    encoder_values_contents, encoder_values_new, encoder_values_push, encoder_vec_as_slice, encoder_vec_contents,
    encoder_vec_get_mut, encoder_vec_len,
};
use vstd::prelude::*;

verus! {

/// Number of encoders in an encoder array.
pub const ENCODER_COUNT: usize = 6;

/// What a rotary encoder reports when it is polled: a click in either direction, or no movement (`Idle`).
#[derive(Clone, Copy, Debug, PartialEq, Eq, Structural)]
pub enum Direction {
    Clockwise,
    CounterClockwise,
    Idle,
}

/// The turns of one encoder counted since its value was last taken: clockwise clicks count up,
/// counter-clockwise clicks count down.
#[derive(Clone, Copy, Debug, PartialEq, Eq, Structural)]
pub struct PositionalEncoder {
    value: i8,
}

/// The count after a poll that reported `reading` (a failed poll counts nothing).
pub open spec fn counted(value: i8, reading: Result<Direction, ()>) -> int {
    match reading {
        Ok(Direction::Clockwise) => value + 1,
        Ok(Direction::CounterClockwise) => value - 1,
        _ => value as int,
    }
}

impl PositionalEncoder {
    /// The clicks counted since the value was last taken.
    pub closed spec fn spec_value(self) -> i8 {
        self.value
    }

    /// An encoder that has counted nothing.
    pub fn new() -> (r: PositionalEncoder)
        ensures
            r.spec_value() == 0,
    {
        PositionalEncoder { value: 0 }
    }

    /// Count what a poll of the encoder reported. Returns the new count after a click, and
    /// nothing when the encoder didn't move or couldn't be read.
    pub fn update(&mut self, reading: Result<Direction, ()>) -> (r: Option<i8>)
        requires
            i8::MIN <= counted(old(self).spec_value(), reading) <= i8::MAX,
        ensures
            final(self).spec_value() == counted(old(self).spec_value(), reading),
            r == match reading {
                Ok(Direction::Clockwise) | Ok(Direction::CounterClockwise) => Some(final(self).spec_value()),
                _ => None::<i8>,
            },
    {
        match reading {
            Ok(Direction::Clockwise) => {
                self.value = self.value + 1;
                Some(self.value)
            },
            Ok(Direction::CounterClockwise) => {
                self.value = self.value - 1;
                Some(self.value)
            },
            Ok(Direction::Idle) => None,
            Err(()) => None,
        }
    }

    /// Take the count: the clicks counted since the last take, or nothing when they cancel
    /// out; the count starts again from zero.
    pub fn take_value(&mut self) -> (r: Option<i8>)
        ensures
            final(self).spec_value() == 0,
            r == if old(self).spec_value() == 0 {
                None::<i8>
            } else {
                Some(old(self).spec_value())
            },
    {
        let value = self.value;
        if value == 0 {
            None
        } else {
            self.value = 0;
            Some(value)
        }
    }
}

/// Several positional encoders, read together.
pub struct EncoderArray {
    encoders: heapless::Vec<PositionalEncoder, 6>,
}

impl EncoderArray {
    /// The encoders, in order.
    pub closed spec fn spec_encoders(self) -> Seq<PositionalEncoder> {
        encoder_vec_contents(self.encoders)
    }

    /// An array of the given encoders.
    pub fn new(encoders: heapless::Vec<PositionalEncoder, 6>) -> (r: EncoderArray)
        ensures
            r.spec_encoders() == encoder_vec_contents(encoders),
    {
        EncoderArray { encoders }
    }

    /// Whether `update_encoder(i, reading)` can run: there is an encoder `i`, and its count
    /// stays within an `i8`.
    pub fn can_update(&self, i: usize, reading: Result<Direction, ()>) -> (r: bool)
        ensures
            r == (i < self.spec_encoders().len() && i8::MIN <= counted(self.spec_encoders()[i as int].spec_value(), reading) <= i8::MAX),
    {
        if i >= encoder_vec_len(&self.encoders) {
            return false;
        }
        let value = encoder_vec_as_slice(&self.encoders)[i].value;
        match reading {
            Ok(Direction::Clockwise) => value < i8::MAX,
            Ok(Direction::CounterClockwise) => value > i8::MIN,
            _ => true,
        }
    }

    /// Count what a poll of encoder `i` reported (see `PositionalEncoder::update`).
    pub fn update_encoder(&mut self, i: usize, reading: Result<Direction, ()>) -> (r: Option<i8>)
        requires
            i < old(self).spec_encoders().len(),
            i8::MIN <= counted(old(self).spec_encoders()[i as int].spec_value(), reading) <= i8::MAX,
        ensures
            final(self).spec_encoders() == old(self).spec_encoders().update(i as int, final(self).spec_encoders()[i as int]),
            final(self).spec_encoders()[i as int].spec_value() == counted(
                old(self).spec_encoders()[i as int].spec_value(),
                reading,
            ),
            r == match reading {
                Ok(Direction::Clockwise) | Ok(Direction::CounterClockwise) => Some(
                    final(self).spec_encoders()[i as int].spec_value(),
                ),
                _ => None::<i8>,
            },
    {
        encoder_vec_get_mut(&mut self.encoders, i).update(reading)
    }

    /// Take the counts of all the encoders, in order (see `PositionalEncoder::take_value`).
    pub fn take_values(&mut self) -> (r: EncoderValues)
        ensures
            encoder_values_contents(r).len() == old(self).spec_encoders().len(),
            final(self).spec_encoders().len() == old(self).spec_encoders().len(),
            forall|i: int|
                0 <= i < old(self).spec_encoders().len() ==> {
                    &&& #[trigger] final(self).spec_encoders()[i].spec_value() == 0
                    &&& encoder_values_contents(r)[i] == if old(self).spec_encoders()[i].spec_value() == 0 {
                        None::<i8>
                    } else {
                        Some(old(self).spec_encoders()[i].spec_value())
                    }
                },
    {
        let ghost start = self.spec_encoders();
        let n = encoder_vec_len(&self.encoders);
        let mut values = encoder_values_new();
        let mut i: usize = 0;
        while i < n
            invariant
                n == start.len(),
                n <= 6,
                0 <= i <= n,
                self.spec_encoders().len() == n,
                encoder_values_contents(values).len() == i,
                forall|j: int| i <= j < n ==> #[trigger] self.spec_encoders()[j] == start[j],
                forall|j: int|
                    0 <= j < i ==> {
                        &&& #[trigger] self.spec_encoders()[j].spec_value() == 0
                        &&& encoder_values_contents(values)[j] == if start[j].spec_value() == 0 {
                            None::<i8>
                        } else {
                            Some(start[j].spec_value())
                        }
                    },
            decreases n - i,
        {
            let v = encoder_vec_get_mut(&mut self.encoders, i).take_value();
            encoder_values_push(&mut values, v);
            i = i + 1;
        }
        values
    }
}

} // verus!
