//! Turning encoder movements into changes of the parameters of the sequencer, the current track
//! and its sequence generator, and regenerating the track's sequence after a change.
use crate::encoder::ENCODER_COUNT;
use crate::machine::{AnyMachine, Machine, MelodyMachineId, RhythmMachineId};
use crate::machine_resources::MachineResources;
use crate::param::{increment_target, params_of, wrapping_add, wrapping_add_spec, Param, ParamError, ParamList, ParamValue};
use crate::sequence_generator::{initial_steps, SequenceGenerator};
use crate::sequencer::Sequencer;
use crate::storage::{encoder_values_as_slice, encoder_values_contents, generator_vec_contents, generator_vec_get_mut, generator_vec_len, param_list_get_mut, param_list_len};
use crate::{new_track_params, param_value, Step, TimeDivision, Track, SEQUENCE_MAX_STEPS, TRACK_COUNT, TRACK_DEFAULT_LENGTH};
use vstd::prelude::*;

verus! {

/// What the encoders have turned since they were last read, one reading per encoder.
pub type EncoderValues = heapless::Vec<Option<i8>, 6>;

/// The encoder that selects the current track, in track mode.
pub const TRACK_NUM_PARAM_INDEX: usize = 2;

/// The page of parameters that the encoders change.
#[derive(Clone, Copy, Debug, PartialEq, Eq, Structural)]
pub enum InputMode {
    Track,
    Sequence,
    Rhythm,
    Groove,
    Melody,
    Harmony,
}

impl Default for InputMode {
    /// The track page.
    fn default() -> (r: InputMode)
        ensures
            r == InputMode::Track,
    {
        InputMode::Track
    }
}

/// The buttons that select the page of parameters.
#[derive(Clone, Copy, Debug, PartialEq, Eq, Structural)]
pub enum Button {
    Track,
    Rhythm,
    Melody,
}

/// The page after a press of `button`: each button cycles between its two pages (track and
/// sequence, rhythm and groove, melody and harmony), starting at the first.
pub open spec fn next_mode(mode: InputMode, button: Button) -> InputMode {
    match button {
        Button::Track => if mode == InputMode::Track { InputMode::Sequence } else { InputMode::Track },
        Button::Rhythm => if mode == InputMode::Rhythm { InputMode::Groove } else { InputMode::Rhythm },
        Button::Melody => if mode == InputMode::Melody { InputMode::Harmony } else { InputMode::Melody },
    }
}

/// The page after a press of `button` (see `next_mode`).
pub fn next_input_mode(mode: InputMode, button: Button) -> (r: InputMode)
    ensures
        r == next_mode(mode, button),
{
    match button {
        Button::Track => match mode {
            InputMode::Track => InputMode::Sequence,
            _ => InputMode::Track,
        },
        Button::Rhythm => match mode {
            InputMode::Rhythm => InputMode::Groove,
            _ => InputMode::Rhythm,
        },
        Button::Melody => match mode {
            InputMode::Melody => InputMode::Harmony,
            _ => InputMode::Melody,
        },
    }
}

/// A button always leads to one of its two pages, and pressing it twice from its first page
/// comes back there.
pub proof fn lemma_button_cycles(mode: InputMode, button: Button)
    ensures
        match button {
            Button::Track => next_mode(mode, button) == InputMode::Track || next_mode(mode, button) == InputMode::Sequence,
            Button::Rhythm => next_mode(mode, button) == InputMode::Rhythm || next_mode(mode, button) == InputMode::Groove,
            Button::Melody => next_mode(mode, button) == InputMode::Melody || next_mode(mode, button) == InputMode::Harmony,
        },
        next_mode(next_mode(next_mode(mode, button), button), button) == next_mode(mode, button),
{
}

/// The parameters a page shows: the track's, the sequencer's, or those of the track's
/// generator (its rhythm machine's, groove, melody machine's or harmony parameters).
pub open spec fn page_params_spec(mode: InputMode, track: Track, generator: SequenceGenerator, sequencer: Sequencer) -> ParamList {
    match mode {
        InputMode::Track => track.params,
        InputMode::Sequence => sequencer.spec_params(),
        InputMode::Rhythm => generator.rhythm().spec_params(),
        InputMode::Groove => generator.spec_groove_params(),
        InputMode::Melody => generator.melody().spec_params(),
        InputMode::Harmony => generator.spec_harmony_params(),
    }
}

/// The parameters the page `mode` shows for the current track.
pub fn page_params<'a>(mode: InputMode, track: &'a Track, generator: &'a SequenceGenerator, sequencer: &'a Sequencer) -> (r: &'a ParamList)
    ensures
        *r == page_params_spec(mode, *track, *generator, *sequencer),
{
    match mode {
        InputMode::Track => track.params(),
        InputMode::Sequence => sequencer.params(),
        InputMode::Rhythm => generator.rhythm_params(),
        InputMode::Groove => generator.groove_params(),
        InputMode::Melody => generator.melody_params(),
        InputMode::Harmony => generator.harmony_params(),
    }
}

/// In track mode, with a reading for each of the six encoders, encoder `i` has turned.
pub open spec fn encoder_turned(mode: InputMode, values: Seq<Option<i8>>, i: int) -> bool {
    mode == InputMode::Track && values.len() == 6 && values[i] is Some
}

/// `p` incremented by `n` (see `Param::increment`), or nothing when that fails.
pub open spec fn param_incremented(p: Param, n: int) -> Option<Param> {
    let target = increment_target(
        p.spec_value().ordinal() as int,
        p.spec_min().ordinal() as int,
        p.spec_max().ordinal() as int,
        n,
    );
    match p.spec_value().with_ordinal(target) {
        Some(v) => Some(p.with_value(v)),
        None => None,
    }
}

/// The parameters after incrementing each of the first `k` by the reading of its encoder, in
/// order, skipping those whose encoder hasn't turned and stopping at the first increment that
/// fails; and whether none failed.
pub open spec fn increments_applied(params: Seq<Param>, values: Seq<Option<i8>>, k: nat) -> (Seq<Param>, bool)
    decreases k,
{
    if k == 0 {
        (params, true)
    } else {
        let (ps, ok) = increments_applied(params, values, (k - 1) as nat);
        if !ok {
            (ps, false)
        } else {
            match values[k - 1] {
                None => (ps, true),
                Some(v) => match param_incremented(ps[k - 1], v as int) {
                    Some(p) => (ps.update(k - 1, p), true),
                    None => (ps, false),
                },
            }
        }
    }
}

/// The parameters after applying the encoder readings to them, each parameter paired with the
/// reading at the same place; and whether no increment failed.
pub open spec fn increments(params: Seq<Param>, values: Seq<Option<i8>>) -> (Seq<Param>, bool) {
    increments_applied(params, values, if params.len() < values.len() { params.len() } else { values.len() })
}

/// Incrementing keeps the number of parameters.
proof fn lemma_increments_len(params: Seq<Param>, values: Seq<Option<i8>>, k: nat)
    requires
        k <= params.len(),
        k <= values.len(),
    ensures
        increments_applied(params, values, k).0.len() == params.len(),
    decreases k,
{
    if k > 0 {
        lemma_increments_len(params, values, (k - 1) as nat);
    }
}

/// Increment each parameter by the reading of the encoder at the same place, in order. Stops
/// at the first increment that fails, with its error; the earlier increments are kept.
#[verifier::spinoff_prover]
fn update_params(encoder_values: &EncoderValues, params: &mut ParamList) -> (r: Result<(), ParamError>)
    ensures
        params_of(*final(params)) == increments(params_of(*old(params)), encoder_values_contents(*encoder_values)).0,
        r is Ok == increments(params_of(*old(params)), encoder_values_contents(*encoder_values)).1,
        r is Err ==> r == Err::<(), ParamError>(ParamError::ValueError),
{
    let values = encoder_values_as_slice(encoder_values);
    let len = param_list_len(params);
    let n = if len < values.len() { len } else { values.len() };
    let ghost start = params_of(*params);
    let mut k: usize = 0;
    while k < n
        invariant
            n <= values@.len(),
            n <= start.len(),
            values@ == encoder_values_contents(*encoder_values),
            start == params_of(*old(params)),
            n == (if start.len() < values@.len() { start.len() } else { values@.len() }),
            0 <= k <= n,
            increments_applied(start, values@, k as nat) == (params_of(*params), true),
        decreases n - k,
    {
        proof {
            lemma_increments_len(start, values@, k as nat);
        }
        match values[k] {
            Some(v) => {
                let p = param_list_get_mut(params, k);
                match p.increment(v as i32) {
                    Ok(()) => {},
                    Err(e) => {
                        proof {
                            assert(increments_applied(start, values@, (k + 1) as nat) == (params_of(*params), false));
                            lemma_increments_stop(start, values@, (k + 1) as nat, n as nat);
                            assert(increments(start, values@) == (params_of(*params), false));
                        }
                        return Err(e);
                    },
                }
            },
            None => {},
        }
        k = k + 1;
    }
    Ok(())
}

/// Once an increment has failed, the later ones are skipped.
proof fn lemma_increments_stop(params: Seq<Param>, values: Seq<Option<i8>>, k: nat, j: nat)
    requires
        k <= j,
        !increments_applied(params, values, k).1,
    ensures
        increments_applied(params, values, j) == increments_applied(params, values, k),
    decreases j - k,
{
    if k < j {
        lemma_increments_stop(params, values, k, (j - 1) as nat);
    }
}

/// `a` and `b` are values of the same kind.
pub open spec fn same_kind(a: ParamValue, b: ParamValue) -> bool {
    match (a, b) {
        (ParamValue::Number(_), ParamValue::Number(_)) => true,
        (ParamValue::TimeDivision(_), ParamValue::TimeDivision(_)) => true,
        (ParamValue::RhythmMachineId(_), ParamValue::RhythmMachineId(_)) => true,
        (ParamValue::MelodyMachineId(_), ParamValue::MelodyMachineId(_)) => true,
        (ParamValue::Note(_), ParamValue::Note(_)) => true,
        (ParamValue::Scale(_), ParamValue::Scale(_)) => true,
        (ParamValue::Key(_), ParamValue::Key(_)) => true,
        (ParamValue::Swing(_), ParamValue::Swing(_)) => true,
        (ParamValue::Part(_), ParamValue::Part(_)) => true,
        (ParamValue::Instrument(_), ParamValue::Instrument(_)) => true,
        _ => false,
    }
}

/// Incrementing parameters keeps the kind of each one's value.
#[verifier::spinoff_prover]
pub proof fn lemma_increments_keep_kinds(params: Seq<Param>, values: Seq<Option<i8>>, k: nat)
    requires
        k <= params.len(),
        k <= values.len(),
    ensures
        increments_applied(params, values, k).0.len() == params.len(),
        forall|i: int|
            0 <= i < params.len() ==> same_kind(
                #[trigger] increments_applied(params, values, k).0[i].spec_value(),
                params[i].spec_value(),
            ),
    decreases k,
{
    if k > 0 {
        lemma_increments_keep_kinds(params, values, (k - 1) as nat);
        let (ps, ok) = increments_applied(params, values, (k - 1) as nat);
        if ok {
            match values[k - 1] {
                Some(v) => {
                    let p = ps[k - 1];
                    let target = increment_target(
                        p.spec_value().ordinal() as int,
                        p.spec_min().ordinal() as int,
                        p.spec_max().ordinal() as int,
                        v as int,
                    );
                    match p.spec_value().with_ordinal(target) {
                        Some(nv) => {
                            p.lemma_with_value(nv);
                            assert(same_kind(nv, p.spec_value()));
                        },
                        None => {},
                    }
                },
                None => {},
            }
        }
    } else {
        assert forall|i: int| 0 <= i < params.len() implies same_kind(
            #[trigger] increments_applied(params, values, k).0[i].spec_value(),
            params[i].spec_value(),
        ) by {
            let v = params[i].spec_value();
            assert(same_kind(v, v));
        }
    }
}

/// The sequence a track holds after an update: when the length fits a sequence and `g` can
/// try to generate, a sequence that `g` generates at `length`, or, when the notes the
/// machines drew would quantize below note 0, the sequence it held before; otherwise the
/// sequence it held before.
pub open spec fn regenerated_steps(length: u8, g: SequenceGenerator, before: Seq<Option<Step>>, after: Seq<Option<Step>>) -> bool {
    if length as usize <= SEQUENCE_MAX_STEPS && g.can_try_generate() {
        g.generated(length, after) || (after == before && g.generation_fails(length))
    } else {
        after == before
    }
}

/// A track that `apply_encoder_values` enables in slot `track_num`: a new track (8 steps of
/// sixteenths holding the initial sequence, with the parameters of `Track::default`) on MIDI
/// channel `track_num`.
pub open spec fn fresh_track(t: Track, track_num: u8) -> bool {
    &&& t.time_division == TimeDivision::Sixteenth
    &&& t.length == TRACK_DEFAULT_LENGTH
    &&& t.midi_channel == track_num
    &&& t@ == initial_steps(TRACK_DEFAULT_LENGTH as nat)
    &&& new_track_params(params_of(t.params))
}

/// The sequencer's playback state (tick, playing, clock history) is the same in `a` and `b`.
pub open spec fn same_playback(a: Sequencer, b: Sequencer) -> bool {
    &&& a.spec_tick() == b.spec_tick()
    &&& a.spec_playing() == b.spec_playing()
    &&& a.spec_last_tick() == b.spec_last_tick()
    &&& a.spec_history() == b.spec_history()
}

/// The rhythm machine after the rhythm machine parameter changed to `v`: a new machine of the
/// chosen kind, or the machine `m` as it was when there is none of that kind.
pub open spec fn switched_rhythm(v: ParamValue, m: AnyMachine, m2: AnyMachine) -> bool {
    match v {
        ParamValue::RhythmMachineId(RhythmMachineId::Unit) => m2 is Unit && m2.fresh(),
        ParamValue::RhythmMachineId(RhythmMachineId::Grids) => m2 is Grids && m2.fresh(),
        _ => m2 == m,
    }
}

/// The melody machine after the melody machine parameter changed to `v`: a new machine of the
/// chosen kind.
pub open spec fn switched_melody(v: ParamValue, m: AnyMachine, m2: AnyMachine) -> bool {
    match v {
        ParamValue::MelodyMachineId(MelodyMachineId::Unit) => m2 is Unit && m2.fresh(),
        ParamValue::MelodyMachineId(MelodyMachineId::Rand) => m2 is Rand && m2.fresh(),
        _ => m2 == m,
    }
}

/// On the track page: the track's parameters take the readings; when that succeeds, a turn of
/// the first encoder switches the rhythm machine and a turn of the fourth the melody machine,
/// the track takes its length, time division and channel from the parameters, and, when that
/// succeeds too, its sequence is regenerated. A failure returns its error, keeping what was
/// done before it.
pub open spec fn track_page_applied(
    values: Seq<Option<i8>>,
    t: Track,
    t2: Track,
    g: SequenceGenerator,
    g2: SequenceGenerator,
    r: Result<(), ParamError>,
) -> bool {
    let (ps, ok) = increments(params_of(t.params), values);
    let a = t.applied_params(ps);
    &&& params_of(t2.params) == ps
    &&& if !ok {
        &&& r == Err::<(), ParamError>(ParamError::ValueError)
        &&& t2.length == t.length && t2.time_division == t.time_division && t2.midi_channel == t.midi_channel
        &&& t2@ == t@
        &&& g2 == g
    } else {
        &&& if encoder_turned(InputMode::Track, values, 0) {
            switched_rhythm(ps[0].spec_value(), g.rhythm(), g2.rhythm())
        } else {
            g2.rhythm() == g.rhythm()
        }
        &&& if encoder_turned(InputMode::Track, values, 3) {
            switched_melody(ps[3].spec_value(), g.melody(), g2.melody())
        } else {
            g2.melody() == g.melody()
        }
        &&& g2.spec_groove_params() == g.spec_groove_params()
        &&& g2.spec_harmony_params() == g.spec_harmony_params()
        &&& t2.length == a.0 && t2.time_division == a.1 && t2.midi_channel == a.2
        &&& if a.3 {
            r is Ok && regenerated_steps(a.0, g2, t@, t2@)
        } else {
            r == Err::<(), ParamError>(ParamError::ValueError) && t2@ == t@
        }
    }
}

/// After the parameters of a page other than the track page took the readings: when they all
/// did, the track's sequence is regenerated by `g2`; otherwise the track is as it was and the
/// error is returned.
pub open spec fn page_outcome(ok: bool, t: Track, t2: Track, g2: SequenceGenerator, r: Result<(), ParamError>) -> bool {
    &&& t2.length == t.length && t2.time_division == t.time_division && t2.midi_channel == t.midi_channel
    &&& t2.params == t.params
    &&& if ok {
        r is Ok && regenerated_steps(t.length, g2, t@, t2@)
    } else {
        r == Err::<(), ParamError>(ParamError::ValueError) && t2@ == t@
    }
}

/// What the readings do on each page to the current track `t`, its generator `g` and the
/// sequencer's parameters `sp` (which become `t2`, `g2` and `sp2`).
pub open spec fn page_applied(
    mode: InputMode,
    values: Seq<Option<i8>>,
    t: Track,
    t2: Track,
    g: SequenceGenerator,
    g2: SequenceGenerator,
    sp: ParamList,
    sp2: ParamList,
    r: Result<(), ParamError>,
) -> bool {
    match mode {
        InputMode::Track => sp2 == sp && track_page_applied(values, t, t2, g, g2, r),
        InputMode::Sequence => {
            let (ps, ok) = increments(params_of(sp), values);
            params_of(sp2) == ps && g2 == g && page_outcome(ok, t, t2, g2, r)
        },
        InputMode::Rhythm => {
            let (ps, ok) = increments(params_of(g.rhythm().spec_params()), values);
            &&& sp2 == sp
            &&& params_of(g2.rhythm().spec_params()) == ps && g2.rhythm().same_kind(g.rhythm())
            &&& g2.melody() == g.melody()
            &&& g2.spec_groove_params() == g.spec_groove_params()
            &&& g2.spec_harmony_params() == g.spec_harmony_params()
            &&& page_outcome(ok, t, t2, g2, r)
        },
        InputMode::Melody => {
            let (ps, ok) = increments(params_of(g.melody().spec_params()), values);
            &&& sp2 == sp
            &&& params_of(g2.melody().spec_params()) == ps && g2.melody().same_kind(g.melody())
            &&& g2.rhythm() == g.rhythm()
            &&& g2.spec_groove_params() == g.spec_groove_params()
            &&& g2.spec_harmony_params() == g.spec_harmony_params()
            &&& page_outcome(ok, t, t2, g2, r)
        },
        InputMode::Groove => {
            let (ps, ok) = increments(params_of(g.spec_groove_params()), values);
            &&& sp2 == sp
            &&& params_of(g2.spec_groove_params()) == ps
            &&& g2.rhythm() == g.rhythm() && g2.melody() == g.melody()
            &&& g2.spec_harmony_params() == g.spec_harmony_params()
            &&& page_outcome(ok, t, t2, g2, r)
        },
        InputMode::Harmony => {
            let (ps, ok) = increments(params_of(g.spec_harmony_params()), values);
            &&& sp2 == sp
            &&& params_of(g2.spec_harmony_params()) == ps
            &&& g2.rhythm() == g.rhythm() && g2.melody() == g.melody()
            &&& g2.spec_groove_params() == g.spec_groove_params()
            &&& page_outcome(ok, t, t2, g2, r)
        },
    }
}

/// Select another track: the third encoder's reading moves the current track number, wrapping
/// around the 16 tracks.
fn update_current_track(encoder_values: &EncoderValues, current_track: &mut u8)
    requires
        encoder_values_contents(*encoder_values).len() > 2,
    ensures
        *final(current_track) == match encoder_values_contents(*encoder_values)[2] {
            Some(inc) => wrapping_add_spec(*old(current_track) as int, inc as int, 15) as u8,
            None => *old(current_track),
        },
{
    let values = encoder_values_as_slice(encoder_values);
    match values[TRACK_NUM_PARAM_INDEX] {
        Some(track_num_increment) => {
            proof {
                crate::arith::lemma_trunc_rem_bounds(track_num_increment as int, 16);
                let a = *current_track as int;
                let t = crate::arith::trunc_rem(track_num_increment as int, 16);
                assert(a + t + 16 >= 0);
                assert(0 <= crate::arith::trunc_rem(a + t + 16, 16) < 16);
            }
            let new_track_num = wrapping_add(*current_track as i32, track_num_increment as i32, TRACK_COUNT as i32 - 1) as u8;
            *current_track = new_track_num;
        },
        None => {},
    }
}

/// Whether encoder `i` has turned, in track mode, with a reading for each of the six encoders.
fn encoder_has_turned(input_mode: InputMode, encoder_values: &EncoderValues, i: usize) -> (r: bool)
    requires
        i < 6,
    ensures
        r == encoder_turned(input_mode, encoder_values_contents(*encoder_values), i as int),
{
    let values = encoder_values_as_slice(encoder_values);
    match input_mode {
        InputMode::Track => values.len() == ENCODER_COUNT && values[i].is_some(),
        _ => false,
    }
}

/// Whether the track number encoder has turned, on the track page.
fn track_num_has_changed(input_mode: InputMode, encoder_values: &EncoderValues) -> (r: bool)
    ensures
        r == encoder_turned(input_mode, encoder_values_contents(*encoder_values), 2),
{
    encoder_has_turned(input_mode, encoder_values, TRACK_NUM_PARAM_INDEX)
}

/// Whether the rhythm machine encoder has turned, on the track page.
fn rhythm_machine_changed(input_mode: InputMode, encoder_values: &EncoderValues) -> (r: bool)
    ensures
        r == encoder_turned(input_mode, encoder_values_contents(*encoder_values), 0),
{
    encoder_has_turned(input_mode, encoder_values, 0)
}

/// Whether the melody machine encoder has turned, on the track page.
fn melody_machine_changed(input_mode: InputMode, encoder_values: &EncoderValues) -> (r: bool)
    ensures
        r == encoder_turned(input_mode, encoder_values_contents(*encoder_values), 3),
{
    encoder_has_turned(input_mode, encoder_values, 3)
}

/// Whether track slot `track_num` is empty.
fn track_disabled(sequencer: &Sequencer, track_num: u8) -> (r: bool)
    requires
        (track_num as int) < sequencer.spec_tracks().len(),
    ensures
        r == sequencer.spec_tracks()[track_num as int] is None,
{
    sequencer.track_slots()[track_num as usize].is_none()
}

/// Put a new track in slot `track_num`, on MIDI channel `track_num`.
fn enable_track(sequencer: &mut Sequencer, track_num: u8)
    requires
        (track_num as int) < old(sequencer).spec_tracks().len(),
    ensures
        final(sequencer).spec_tracks() == old(sequencer).spec_tracks().update(
            track_num as int,
            final(sequencer).spec_tracks()[track_num as int],
        ),
        final(sequencer).spec_tracks()[track_num as int] matches Some(t) && fresh_track(t, track_num),
        same_playback(*final(sequencer), *old(sequencer)),
        final(sequencer).spec_params() == old(sequencer).spec_params(),
{
    let mut new_track = Track::default();
    new_track.midi_channel = track_num;
    new_track.sequence = SequenceGenerator::initial_sequence(new_track.length);
    let _ = sequencer.enable_track(track_num, new_track);
}

/// Switch the rhythm machine to the one that `param_value` names; there is no machine for
/// `Euclid`, which keeps the machine as it is.
fn update_rhythm_machine(generator: &mut SequenceGenerator, param_value: ParamValue)
    requires
        param_value is RhythmMachineId,
    ensures
        switched_rhythm(param_value, old(generator).rhythm(), final(generator).rhythm()),
        final(generator).melody() == old(generator).melody(),
        final(generator).spec_groove_params() == old(generator).spec_groove_params(),
        final(generator).spec_harmony_params() == old(generator).spec_harmony_params(),
{
    let id = match param_value {
        ParamValue::RhythmMachineId(id) => id,
        _ => RhythmMachineId::Unit,
    };
    match AnyMachine::from_rhythm_machine_id(id) {
        Some(m) => generator.set_rhythm_machine(m),
        None => {},
    }
}

/// Switch the melody machine to the one that `param_value` names.
fn update_melody_machine(generator: &mut SequenceGenerator, param_value: ParamValue)
    requires
        param_value is MelodyMachineId,
    ensures
        switched_melody(param_value, old(generator).melody(), final(generator).melody()),
        final(generator).rhythm() == old(generator).rhythm(),
        final(generator).spec_groove_params() == old(generator).spec_groove_params(),
        final(generator).spec_harmony_params() == old(generator).spec_harmony_params(),
{
    let id = match param_value {
        ParamValue::MelodyMachineId(id) => id,
        _ => MelodyMachineId::Unit,
    };
    generator.set_melody_machine(AnyMachine::from_melody_machine_id(id));
}

/// Regenerate the track's sequence with `generator`, when it can try to generate at the
/// track's length. When a note the machines drew would quantize below note 0, which no note
/// can hold, the track keeps its sequence.
fn update_sequence(track: &mut Track, generator: &SequenceGenerator, machine_resources: &mut MachineResources)
    ensures
        final(track).length == old(track).length,
        final(track).time_division == old(track).time_division,
        final(track).midi_channel == old(track).midi_channel,
        final(track).params == old(track).params,
        regenerated_steps(old(track).length, *generator, old(track)@, final(track)@),
{
    if (track.length as usize) <= SEQUENCE_MAX_STEPS && generator.ready_to_try_generate() {
        match generator.try_generate(track.length, machine_resources) {
            Some(sequence) => track.sequence = sequence,
            None => {},
        }
    }
}

/// Whether `apply_encoder_values` can run: unless the track is being changed, the current
/// track has a slot, and a generator when the slot holds a track; and on the track page, an
/// enabled current track has the six track parameters, with a rhythm machine first and a
/// melody machine fourth where their encoders turned.
pub open spec fn can_apply_encoder_values(
    values: Seq<Option<i8>>,
    mode: InputMode,
    cur: u8,
    sequencer: Sequencer,
    gens: Seq<SequenceGenerator>,
) -> bool {
    &&& encoder_turned(mode, values, 2) || ((cur as int) < sequencer.spec_tracks().len() && (
        sequencer.spec_tracks()[cur as int] is None || (cur as int) < gens.len()))
    &&& mode == InputMode::Track && !encoder_turned(mode, values, 2) && sequencer.spec_tracks()[cur as int] is Some ==> {
        let params = sequencer.spec_tracks()[cur as int]->0.params;
        &&& params_of(params).len() >= 6
        &&& encoder_turned(mode, values, 0) ==> (param_value(params, 0) matches Some(ParamValue::RhythmMachineId(_)))
        &&& encoder_turned(mode, values, 3) ==> (param_value(params, 3) matches Some(ParamValue::MelodyMachineId(_)))
    }
}

/// Whether `apply_encoder_values` can run with these arguments (see
/// `can_apply_encoder_values`).
#[verifier::spinoff_prover]
pub fn ready_to_apply(
    encoder_values: &EncoderValues,
    input_mode: InputMode,
    current_track: u8,
    sequencer: &Sequencer,
    sequence_generators: &heapless::Vec<SequenceGenerator, 16>,
) -> (r: bool)
    ensures
        r == can_apply_encoder_values(
            encoder_values_contents(*encoder_values),
            input_mode,
            current_track,
            *sequencer,
            generator_vec_contents(*sequence_generators),
        ),
{
    if track_num_has_changed(input_mode, encoder_values) {
        return true;
    }
    let slots = sequencer.track_slots();
    if current_track as usize >= slots.len() {
        return false;
    }
    if slots[current_track as usize].is_none() {
        return true;
    }
    if current_track as usize >= generator_vec_len(sequence_generators) {
        return false;
    }
    match input_mode {
        InputMode::Track => match &slots[current_track as usize] {
            Some(track) => {
                let params = track.params();
                if param_list_len(params) < 6 {
                    return false;
                }
                if rhythm_machine_changed(input_mode, encoder_values) {
                    match crate::storage::param_list_get(params, 0).value() {
                        ParamValue::RhythmMachineId(_) => {},
                        _ => return false,
                    }
                }
                if melody_machine_changed(input_mode, encoder_values) {
                    match crate::storage::param_list_get(params, 3).value() {
                        ParamValue::MelodyMachineId(_) => {},
                        _ => return false,
                    }
                }
                true
            },
            None => true,
        },
        _ => true,
    }
}

/// What `apply_encoder_values` does with the readings `values` on page `mode`: the current
/// track number goes from `cur` to `cur2`, the sequencer from `s` to `s2`, the generators from
/// `gens` to `gens2`, and `r` is returned. On the track page, a turn of the third encoder
/// selects another track and does nothing else. Otherwise an empty current track slot gets a
/// new track and nothing else happens; and for an enabled track, the readings change the
/// parameters of the page (see `page_applied`) and the track's sequence is regenerated.
pub open spec fn encoder_values_applied(
    values: Seq<Option<i8>>,
    mode: InputMode,
    cur: u8,
    cur2: u8,
    s: Sequencer,
    s2: Sequencer,
    gens: Seq<SequenceGenerator>,
    gens2: Seq<SequenceGenerator>,
    r: Result<(), ParamError>,
) -> bool {
    let tracks = s.spec_tracks();
    let tracks2 = s2.spec_tracks();
    if encoder_turned(mode, values, 2) {
        &&& r is Ok
        &&& cur2 == wrapping_add_spec(cur as int, values[2]->0 as int, 15) as u8
        &&& s2 == s
        &&& gens2 == gens
    } else if tracks[cur as int] is None {
        &&& r is Ok
        &&& cur2 == cur
        &&& tracks2 == tracks.update(cur as int, tracks2[cur as int])
        &&& (tracks2[cur as int] matches Some(t) && fresh_track(t, cur))
        &&& same_playback(s2, s)
        &&& s2.spec_params() == s.spec_params()
        &&& gens2 == gens
    } else {
        &&& cur2 == cur
        &&& tracks2 == tracks.update(cur as int, tracks2[cur as int])
        &&& tracks2[cur as int] is Some
        &&& gens2 == gens.update(cur as int, gens2[cur as int])
        &&& same_playback(s2, s)
        &&& page_applied(
            mode,
            values,
            tracks[cur as int]->0,
            tracks2[cur as int]->0,
            gens[cur as int],
            gens2[cur as int],
            s.spec_params(),
            s2.spec_params(),
            r,
        )
    }
}

/// Apply the encoder readings to the page of parameters that `input_mode` selects (see
/// `encoder_values_applied`).
#[verifier::spinoff_prover]
pub fn apply_encoder_values(
    encoder_values: EncoderValues,
    input_mode: InputMode,
    current_track: &mut u8,
    sequencer: &mut Sequencer,
    sequence_generators: &mut heapless::Vec<SequenceGenerator, 16>,
    machine_resources: &mut MachineResources,
) -> (r: Result<(), ParamError>)
    requires
        can_apply_encoder_values(
            encoder_values_contents(encoder_values),
            input_mode,
            *old(current_track),
            *old(sequencer),
            generator_vec_contents(*old(sequence_generators)),
        ),
    ensures
        encoder_values_applied(
            encoder_values_contents(encoder_values),
            input_mode,
            *old(current_track),
            *final(current_track),
            *old(sequencer),
            *final(sequencer),
            generator_vec_contents(*old(sequence_generators)),
            generator_vec_contents(*final(sequence_generators)),
            r,
        ),
{
    if track_num_has_changed(input_mode, &encoder_values) {
        update_current_track(&encoder_values, current_track);
        return Ok(());
    }
    let cur = *current_track;
    if track_disabled(sequencer, cur) {
        enable_track(sequencer, cur);
        return Ok(());
    }
    let ghost values = encoder_values_contents(encoder_values);
    let ghost t0 = sequencer.spec_tracks()[cur as int]->0;
    let ghost sp0 = sequencer.spec_params();
    let generator = generator_vec_get_mut(sequence_generators, cur as usize);
    let ghost g0 = *generator;
    let mut track = match sequencer.track_slot_mut(cur as usize).take() {
        Some(t) => t,
        None => {
            assert(false);
            return Ok(());
        },
    };
    let result = match input_mode {
        InputMode::Track => {
            let updated = update_params(&encoder_values, track.params_mut());
            match updated {
                Err(e) => Err(e),
                Ok(()) => {
                    let ghost ps = params_of(track.params);
                    proof {
                        lemma_increments_keep_kinds(
                            params_of(t0.params),
                            values,
                            if params_of(t0.params).len() < values.len() { params_of(t0.params).len() } else { values.len() },
                        );
                    }
                    if rhythm_machine_changed(input_mode, &encoder_values) {
                        proof {
                            assert(same_kind(ps[0].spec_value(), params_of(t0.params)[0].spec_value()));
                        }
                        update_rhythm_machine(generator, crate::storage::param_list_get(track.params(), 0).value());
                    }
                    if melody_machine_changed(input_mode, &encoder_values) {
                        proof {
                            assert(same_kind(ps[3].spec_value(), params_of(t0.params)[3].spec_value()));
                        }
                        update_melody_machine(generator, crate::storage::param_list_get(track.params(), 3).value());
                    }
                    match track.apply_params() {
                        Err(e) => Err(e),
                        Ok(()) => {
                            update_sequence(&mut track, generator, machine_resources);
                            Ok(())
                        },
                    }
                },
            }
        },
        _ => {
            let updated = match input_mode {
                InputMode::Sequence => update_params(&encoder_values, sequencer.params_mut()),
                InputMode::Rhythm => update_params(&encoder_values, generator.rhythm_params_mut()),
                InputMode::Groove => update_params(&encoder_values, generator.groove_params_mut()),
                InputMode::Melody => update_params(&encoder_values, generator.melody_params_mut()),
                _ => update_params(&encoder_values, generator.harmony_params_mut()),
            };
            match updated {
                Err(e) => Err(e),
                Ok(()) => {
                    update_sequence(&mut track, generator, machine_resources);
                    Ok(())
                },
            }
        },
    };
    *sequencer.track_slot_mut(cur as usize) = Some(track);
    proof {
        let tracks2 = sequencer.spec_tracks();
        assert(tracks2 =~= old(sequencer).spec_tracks().update(cur as int, tracks2[cur as int]));
    }
    result
}

/// `apply_encoder_values`, when it can run (see `can_apply_encoder_values`); otherwise
/// nothing changes and nothing is returned.
pub fn try_apply_encoder_values(
    encoder_values: EncoderValues,
    input_mode: InputMode,
    current_track: &mut u8,
    sequencer: &mut Sequencer,
    sequence_generators: &mut heapless::Vec<SequenceGenerator, 16>,
    machine_resources: &mut MachineResources,
) -> (r: Option<Result<(), ParamError>>)
    ensures
        r is None <==> !can_apply_encoder_values(
            encoder_values_contents(encoder_values),
            input_mode,
            *old(current_track),
            *old(sequencer),
            generator_vec_contents(*old(sequence_generators)),
        ),
        r is None ==> *final(current_track) == *old(current_track) && *final(sequencer) == *old(sequencer)
            && *final(sequence_generators) == *old(sequence_generators),
        r matches Some(res) ==> encoder_values_applied(
            encoder_values_contents(encoder_values),
            input_mode,
            *old(current_track),
            *final(current_track),
            *old(sequencer),
            *final(sequencer),
            generator_vec_contents(*old(sequence_generators)),
            generator_vec_contents(*final(sequence_generators)),
            res,
        ),
{
    if ready_to_apply(&encoder_values, input_mode, *current_track, sequencer, sequence_generators) {
        Some(apply_encoder_values(encoder_values, input_mode, current_track, sequencer, sequence_generators, machine_resources))
    } else {
        None
    }
}

} // verus!
