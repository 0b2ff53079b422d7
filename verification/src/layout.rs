//! Where the performance view puts things on the 128 by 64 pixel display: the geometry of the
//! sequence, the parameter table and the warning box.
use crate::input::InputMode;
use crate::{map_to_range, map_to_range_in_bounds, map_to_range_spec, Sequence, Step};
use vstd::prelude::*;

verus! {

/// Display width, in pixels.
pub const DISPLAY_WIDTH: i32 = 128;

/// Display height, in pixels.
pub const DISPLAY_HEIGHT: i32 = 64;

/// The display's middle column.
pub const DISPLAY_CENTER: i32 = 64;

/// Height of a line of the small font, with its spacing.
pub const CHAR_HEIGHT: u32 = 7;

/// Top of the warning box.
pub const WARNING_Y_POS: i32 = 21;

/// Space between the warning box's border and its text.
pub const WARNING_PADDING: i32 = 4;

/// Thickness of the warning box's border.
pub const WARNING_BORDER: u32 = 1;

/// Height of the header line.
pub const HEADER_HEIGHT: u32 = 6;

/// Where the header shows that the sequencer is playing.
pub const HEADER_PLAYING_ICON_X_POS: i32 = 24;

/// Left of the sequence area.
pub const SEQUENCE_X_POS: i32 = 0;

/// Top of the sequence area, just below the header.
pub const SEQUENCE_Y_POS: i32 = 7;

/// Width of the sequence area.
pub const SEQUENCE_WIDTH: u32 = 128;

/// Height of the sequence area.
pub const SEQUENCE_HEIGHT: u32 = 45;

/// Row of the line under each step.
pub const SEQUENCE_UNDERLINE_Y_POS: i32 = 45;

/// Top of the parameter table.
pub const PARAM_Y_POS: u32 = 51;

/// Lowest row a step's box can start on: the box of the lowest note.
pub const NOTE_Y_POS_MIN: i32 = 35;

/// The lowest note of `steps` (127 when there is no note).
pub open spec fn lowest_note(steps: Seq<Option<Step>>) -> int
    decreases steps.len(),
{
    if steps.len() == 0 {
        127
    } else {
        let m = lowest_note(steps.drop_last());
        match steps.last() {
            Some(s) => if (s.note.value() as int) < m {
                s.note.value() as int
            } else {
                m
            },
            None => m,
        }
    }
}

/// The highest note of `steps` (0 when there is no note).
pub open spec fn highest_note(steps: Seq<Option<Step>>) -> int
    decreases steps.len(),
{
    if steps.len() == 0 {
        0
    } else {
        let m = highest_note(steps.drop_last());
        match steps.last() {
            Some(s) => if (s.note.value() as int) > m {
                s.note.value() as int
            } else {
                m
            },
            None => m,
        }
    }
}

/// Every note of a sequence lies between its lowest and highest notes.
pub proof fn lemma_notes_between(steps: Seq<Option<Step>>)
    ensures
        lowest_note(steps) <= 127,
        highest_note(steps) >= 0,
        forall|i: int|
            0 <= i < steps.len() && #[trigger] steps[i] is Some ==> lowest_note(steps) <= steps[i]->0.note.value()
                <= highest_note(steps),
    decreases steps.len(),
{
    if steps.len() > 0 {
        lemma_notes_between(steps.drop_last());
        assert forall|i: int| 0 <= i < steps.len() && #[trigger] steps[i] is Some implies lowest_note(steps)
            <= steps[i]->0.note.value() <= highest_note(steps) by {
            if i < steps.len() - 1 {
                assert(steps.drop_last()[i] == steps[i]);
            }
        }
    }
}

/// The lowest and highest notes of the sequence, to scale the steps' heights by: 127 and 0
/// when the sequence has no notes.
pub fn note_min_max_as_u8s(sequence: &Sequence) -> (r: (u8, u8))
    ensures
        r.0 == lowest_note(sequence@),
        r.1 == highest_note(sequence@),
{
    let steps = sequence.as_slice();
    let mut min: u8 = 127;
    let mut max: u8 = 0;
    let mut i: usize = 0;
    while i < steps.len()
        invariant
            0 <= i <= steps@.len(),
            steps@ == sequence@,
            min == lowest_note(steps@.take(i as int)),
            max == highest_note(steps@.take(i as int)),
        decreases steps@.len() - i,
    {
        proof {
            assert(steps@.take(i as int + 1).drop_last() =~= steps@.take(i as int));
        }
        match &steps[i] {
            Some(step) => {
                let note: u8 = step.note.number();
                if note < min {
                    min = note;
                }
                if note > max {
                    max = note;
                }
            },
            None => {},
        }
        i = i + 1;
    }
    proof {
        assert(steps@.take(i as int) =~= steps@);
    }
    (min, max)
}

/// Width (and height) of a step's box: 6 pixels for up to 17 steps, 3 for more.
pub fn step_width(length: usize) -> (r: u32)
    ensures
        r == if length <= 17 { 6u32 } else { 3u32 },
{
    if length <= 17 {
        6
    } else {
        3
    }
}

/// The space left of the first step, so that the steps (each a box and a pixel of space) are
/// centred: `(128 - length * (width + 1)) / 2`.
pub fn sequence_margin_left(length: usize) -> (r: i32)
    requires
        length <= 32,
    ensures
        r == (DISPLAY_WIDTH - length * (step_width_spec(length) + 1)) / 2,
        r >= 0,
{
    let w = step_width(length);
    proof {
        if length <= 17 {
            assert(0 <= length * 7 <= 119) by (nonlinear_arith)
                requires
                    length <= 17;
        } else {
            assert(0 <= length * 4 <= 128) by (nonlinear_arith)
                requires
                    length <= 32;
        }
    }
    (DISPLAY_WIDTH - (length as i32) * ((w as i32) + 1)) / 2
}

/// Width of a step's box (see `step_width`).
pub open spec fn step_width_spec(length: usize) -> int {
    if length <= 17 { 6 } else { 3 }
}

/// Left edge of step `step_num`'s box, and the column just past its right edge.
pub fn step_x(length: usize, step_num: usize) -> (r: (i32, i32))
    requires
        length <= 32,
        step_num < length,
    ensures
        r.0 == (DISPLAY_WIDTH - length * (step_width_spec(length) + 1)) / 2 + step_num * (step_width_spec(length) + 1),
        r.1 == r.0 + step_width_spec(length),
{
    let w = step_width(length) as i32;
    proof {
        assert(0 <= step_num * 7 <= 224) by (nonlinear_arith)
            requires
                step_num < 32;
        assert(0 <= step_num * 4 <= 128) by (nonlinear_arith)
            requires
                step_num < 32;
    }
    let x = sequence_margin_left(length) + (step_num as i32) * (w + 1);
    (x, x + w)
}

/// Top row of the box of a step playing `note`: the notes from `note_min` to `note_max` are
/// spread from row 35 (the lowest) up to row `9 + step_height` (the highest).
pub fn step_y(note: u8, note_min: u8, note_max: u8, step_height: u32) -> (r: i32)
    requires
        note_min <= note <= note_max <= 127,
        step_height <= 6,
    ensures
        r == map_to_range_spec(note as int, note_min as int, note_max as int, NOTE_Y_POS_MIN as int, 9 + step_height),
{
    let out_max: i32 = 9 + step_height as i32;
    proof {
        let a = note as int - note_min as int;
        let b = out_max - NOTE_Y_POS_MIN + 1;
        assert(-30 <= b <= -18);
        assert(0 <= a <= 127);
        assert(-3810 <= a * b <= 0) by (nonlinear_arith)
            requires
                -30 <= b <= -18,
                0 <= a <= 127;
        let d = note_max as int - note_min as int + 1;
        let p = a * b;
        assert(-3810 <= crate::arith::trunc_div(p, d) <= 0) by (nonlinear_arith)
            requires
                -3810 <= p <= 0,
                d >= 1,
        {
            assert((-p) / d <= -p) by (nonlinear_arith)
                requires
                    -p >= 0,
                    d >= 1;
        }
        assert(map_to_range_in_bounds(note as int, note_min as int, note_max as int, NOTE_Y_POS_MIN as int, out_max as int));
    }
    map_to_range(note as i32, note_min as i32, note_max as i32, NOTE_Y_POS_MIN, out_max)
}

/// Where the names of the six parameters go, in two rows of three: on the track page the
/// columns are at 0, 60 and 96, on the other pages every 48 pixels.
pub fn param_name_points(is_track: bool) -> (r: [(i32, i32); 6])
    ensures
        r@ == seq![
            (0i32, 51i32),
            (if is_track { 60i32 } else { 48i32 }, 51i32),
            (if is_track { 96i32 } else { 96i32 }, 51i32),
            (0i32, 58i32),
            (if is_track { 60i32 } else { 48i32 }, 58i32),
            (if is_track { 96i32 } else { 96i32 }, 58i32),
        ],
{
    let col_content_width: i32 = 40;
    let col_padding: i32 = 8;
    let col_width = col_content_width + col_padding;
    let name0_x: i32 = 0;
    let name1_x: i32 = if is_track { 60 } else { col_width };
    let name2_x: i32 = if is_track { 96 } else { col_width * 2 };
    let row0_y = PARAM_Y_POS as i32;
    let row1_y = (PARAM_Y_POS + CHAR_HEIGHT) as i32;
    let r = [
        (name0_x, row0_y),
        (name1_x, row0_y),
        (name2_x, row0_y),
        (name0_x, row1_y),
        (name1_x, row1_y),
        (name2_x, row1_y),
    ];
    assert(r@ =~= seq![
        (0i32, 51i32),
        (if is_track { 60i32 } else { 48i32 }, 51i32),
        (if is_track { 96i32 } else { 96i32 }, 51i32),
        (0i32, 58i32),
        (if is_track { 60i32 } else { 48i32 }, 58i32),
        (if is_track { 96i32 } else { 96i32 }, 58i32),
    ]);
    r
}

/// Where the values of the six parameters end (they are right-aligned): on the track page at
/// 51, 88 and the display's edge, on the other pages 40 pixels after each name's column.
pub fn param_value_points(is_track: bool) -> (r: [(i32, i32); 6])
    ensures
        r@ == seq![
            (if is_track { 51i32 } else { 40i32 }, 51i32),
            (if is_track { 88i32 } else { 88i32 }, 51i32),
            (128i32, 51i32),
            (if is_track { 51i32 } else { 40i32 }, 58i32),
            (if is_track { 88i32 } else { 88i32 }, 58i32),
            (128i32, 58i32),
        ],
{
    let col_content_width: i32 = 40;
    let col_padding: i32 = 8;
    let col_width = col_content_width + col_padding;
    let name0_x: i32 = 0;
    let name1_x: i32 = if is_track { 60 } else { col_width };
    let value0_x: i32 = if is_track { 51 } else { name0_x + col_content_width };
    let value1_x: i32 = if is_track { 88 } else { name1_x + col_content_width };
    let value2_x: i32 = DISPLAY_WIDTH;
    let row0_y = PARAM_Y_POS as i32;
    let row1_y = (PARAM_Y_POS + CHAR_HEIGHT) as i32;
    let r = [
        (value0_x, row0_y),
        (value1_x, row0_y),
        (value2_x, row0_y),
        (value0_x, row1_y),
        (value1_x, row1_y),
        (value2_x, row1_y),
    ];
    assert(r@ =~= seq![
        (if is_track { 51i32 } else { 40i32 }, 51i32),
        (if is_track { 88i32 } else { 88i32 }, 51i32),
        (128i32, 51i32),
        (if is_track { 51i32 } else { 40i32 }, 58i32),
        (if is_track { 88i32 } else { 88i32 }, 58i32),
        (128i32, 58i32),
    ]);
    r
}

/// The warning box for a text of `text_len` characters in the large font (6 pixels wide, 10
/// high, a pixel apart), padded by 4 pixels and centred: its left edge, width and height, and
/// the row its text starts on. The text has at least one character, and its width in pixels
/// (7 per character, less the last gap, plus the padding) fits in an `i32`.
pub fn warning_box(text_len: usize) -> (r: (i32, u32, u32, i32))
    requires
        1 <= text_len,
        text_len * 7 + 7 <= i32::MAX,
    ensures
        ({
            let text_width = text_len * 6 + (text_len - 1) + 8;
            let margin = crate::arith::trunc_div(DISPLAY_WIDTH - text_width, 2);
            &&& r.0 == margin
            &&& r.1 == DISPLAY_WIDTH - margin * 2
            &&& r.2 == 20
            &&& r.3 == 26
        }),
{
    let char_width: usize = 6;
    let char_height: i32 = 10;
    let space_width: usize = 1;
    let text_width = ((text_len * char_width) + ((text_len - 1) * space_width) + (WARNING_PADDING as usize * 2)) as i32;
    let text_margin_left = (DISPLAY_WIDTH - text_width) / 2;
    let warning_width = DISPLAY_WIDTH - (text_margin_left * 2);
    let warning_height = char_height + WARNING_PADDING * 2 + WARNING_BORDER as i32 * 2;
    let warning_text_y_pos = WARNING_Y_POS + WARNING_PADDING + WARNING_BORDER as i32;
    (text_margin_left, warning_width as u32, warning_height as u32, warning_text_y_pos)
}

/// The page's title, shown at the top of the display.
pub fn mode_title(mode: InputMode) -> (r: &'static str)
    ensures
        r@ == match mode {
            InputMode::Track => "TRACK"@,
            InputMode::Sequence => "SEQUENCE"@,
            InputMode::Rhythm => "RHYTHM"@,
            InputMode::Groove => "GROOVE"@,
            InputMode::Melody => "MELODY"@,
            InputMode::Harmony => "HARMONY"@,
        },
{
    match mode {
        InputMode::Track => "TRACK",
        InputMode::Sequence => "SEQUENCE",
        InputMode::Rhythm => "RHYTHM",
        InputMode::Groove => "GROOVE",
        InputMode::Melody => "MELODY",
        InputMode::Harmony => "HARMONY",
    }
}

/// Whether the header shows the machine's name: on the rhythm and melody pages.
pub fn shows_machine_name(mode: InputMode) -> (r: bool)
    ensures
        r == (mode == InputMode::Rhythm || mode == InputMode::Melody),
{
    match mode {
        InputMode::Rhythm | InputMode::Melody => true,
        _ => false,
    }
}

} // verus!
