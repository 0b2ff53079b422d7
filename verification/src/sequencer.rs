//! The sequencer: plays the tracks' sequences as MIDI messages, driven by an external MIDI clock.
use crate::midi::MidiMessage;
use crate::param::{params_of, Param, ParamList, ParamValue};
use crate::storage::{
    history_as_slice, history_contents, history_len, history_new, history_oldest, history_write, param_list_len, message_vec_contents,
    message_vec_new, message_vec_push, param_list_get, param_list_get_mut, param_list_new, param_list_push,
    track_vec_as_slice, track_vec_contents, track_vec_get_mut, track_vec_new, track_vec_push,
};
use crate::{Step, TimeDivision, Track, TRACK_COUNT};
use vstd::prelude::*;
use vstd::std_specs::convert::TryFromSpecImpl;

verus! {

/// Failure to enable a track.
#[derive(Debug)]
pub enum SequencerError {
    EnableTrackError(),
}

/// Swing, in the MPC's format: the percentage of the time between two sixteenths after which
/// the second (off-beat) sixteenth plays. 50% is straight time.
#[derive(Clone, Copy, Debug, PartialEq, Eq, Structural)]
pub enum Swing {
    Mpc50,
    Mpc54,
    Mpc58,
    Mpc62,
    Mpc66,
    Mpc70,
    Mpc75,
}

impl Swing {
    /// The swing's position in the list of swing amounts.
    pub open spec fn index(self) -> u8 {
        match self {
            Swing::Mpc50 => 0,
            Swing::Mpc54 => 1,
            Swing::Mpc58 => 2,
            Swing::Mpc62 => 3,
            Swing::Mpc66 => 4,
            Swing::Mpc70 => 5,
            Swing::Mpc75 => 6,
        }
    }

    /// The swing at position `value` in the list of swing amounts.
    pub open spec fn from_index(value: u8) -> Option<Swing> {
        if value == 0 {
            Some(Swing::Mpc50)
        } else if value == 1 {
            Some(Swing::Mpc54)
        } else if value == 2 {
            Some(Swing::Mpc58)
        } else if value == 3 {
            Some(Swing::Mpc62)
        } else if value == 4 {
            Some(Swing::Mpc66)
        } else if value == 5 {
            Some(Swing::Mpc70)
        } else if value == 6 {
            Some(Swing::Mpc75)
        } else {
            None
        }
    }

    /// The swing as a percentage, from 50 (none) to 75.
    pub open spec fn percentage(self) -> u8 {
        match self {
            Swing::Mpc50 => 50,
            Swing::Mpc54 => 54,
            Swing::Mpc58 => 58,
            Swing::Mpc62 => 62,
            Swing::Mpc66 => 66,
            Swing::Mpc70 => 70,
            Swing::Mpc75 => 75,
        }
    }

    /// The swing as a percentage, from 50 (none) to 75.
    pub fn as_percentage(&self) -> (r: u8)
        ensures
            r == self.percentage(),
            50 <= r <= 75,
    {
        match self {
            Swing::Mpc50 => 50,
            Swing::Mpc54 => 54,
            Swing::Mpc58 => 58,
            Swing::Mpc62 => 62,
            Swing::Mpc66 => 66,
            Swing::Mpc70 => 70,
            Swing::Mpc75 => 75,
        }
    }

    /// The swing's position in the list of swing amounts.
    pub fn to_u8(self) -> (r: u8)
        ensures
            r == self.index(),
    {
        match self {
            Swing::Mpc50 => 0,
            Swing::Mpc54 => 1,
            Swing::Mpc58 => 2,
            Swing::Mpc62 => 3,
            Swing::Mpc66 => 4,
            Swing::Mpc70 => 5,
            Swing::Mpc75 => 6,
        }
    }
}

impl Default for Swing {
    fn default() -> (r: Swing)
        ensures
            r == Swing::Mpc50,
    {
        Swing::Mpc50
    }
}

impl TryFrom<u8> for Swing {
    type Error = ();

    /// The swing at position `value` in the list of swing amounts; fails past `Mpc75`.
    fn try_from(value: u8) -> (r: Result<Swing, ()>) {
        if value == 0 {
            Ok(Swing::Mpc50)
        } else if value == 1 {
            Ok(Swing::Mpc54)
        } else if value == 2 {
            Ok(Swing::Mpc58)
        } else if value == 3 {
            Ok(Swing::Mpc62)
        } else if value == 4 {
            Ok(Swing::Mpc66)
        } else if value == 5 {
            Ok(Swing::Mpc70)
        } else if value == 6 {
            Ok(Swing::Mpc75)
        } else {
            Err(())
        }
    }
}

impl TryFromSpecImpl<u8> for Swing {
    open spec fn obeys_try_from_spec() -> bool {
        true
    }

    open spec fn try_from_spec(v: u8) -> Result<Swing, ()> {
        match Swing::from_index(v) {
            Some(s) => Ok(s),
            None => Err(()),
        }
    }
}


/// Most messages that one tick can produce: a note on and a note off for each track.
pub const MAX_MESSAGES_PER_TICK: usize = 32;

/// Number of tick durations that the tempo estimate averages.
pub const MIDI_HISTORY_SAMPLE_COUNT: usize = 6;

/// Tempo assumed before the clock has ticked twice.
pub const DEFAULT_BPM: u64 = 130;

/// Time between MIDI clock ticks at the default tempo, in microseconds: 24 ticks per beat.
pub const DEFAULT_TICK_DURATION_US: u64 = 19230;

/// A MIDI message to send now, or after a delay in microseconds.
#[derive(Clone, Copy, Debug, PartialEq, Eq, Structural)]
pub enum ScheduledMidiMessage {
    Immediate(MidiMessage),
    Delayed(MidiMessage, u64),
}

/// The messages that one call of `advance` returns.
pub type MessageVec = heapless::Vec<ScheduledMidiMessage, 32>;

/// Sum of a sequence of durations.
pub open spec fn seq_sum(s: Seq<u64>) -> int
    decreases s.len(),
{
    if s.len() == 0 {
        0
    } else {
        seq_sum(s.drop_last()) + s.last()
    }
}

/// The sum of two sequences one after the other is the sum of their sums.
pub proof fn lemma_seq_sum_concat(a: Seq<u64>, b: Seq<u64>)
    ensures
        seq_sum(a + b) == seq_sum(a) + seq_sum(b),
    decreases b.len(),
{
    if b.len() == 0 {
        assert(a + b =~= a);
    } else {
        lemma_seq_sum_concat(a, b.drop_last());
        assert((a + b).drop_last() =~= a + b.drop_last());
    }
}

/// Sums are never negative, and a prefix sums to no more than the whole.
pub proof fn lemma_seq_sum_prefix(s: Seq<u64>, i: int)
    requires
        0 <= i <= s.len(),
    ensures
        0 <= seq_sum(s.take(i)) <= seq_sum(s),
        seq_sum(s.take(i)) + seq_sum(s.skip(i)) == seq_sum(s),
    decreases s.len(),
{
    lemma_seq_sum_concat(s.take(i), s.skip(i));
    assert(s.take(i) + s.skip(i) =~= s);
    lemma_seq_sum_nonneg(s.skip(i));
    lemma_seq_sum_nonneg(s.take(i));
}

/// A single duration sums to itself.
pub proof fn lemma_seq_sum_single(x: u64)
    ensures
        seq_sum(seq![x]) == x,
{
    assert(seq![x].drop_last() =~= Seq::<u64>::empty());
    reveal_with_fuel(seq_sum, 2);
}

/// A steady clock is measured exactly: when every time in the history is `p`, the estimated
/// time between ticks is `p`.
pub proof fn lemma_steady_clock(history: Seq<u64>, p: u64)
    requires
        history.len() > 0,
        forall|i: int| 0 <= i < history.len() ==> history[i] == p,
    ensures
        seq_sum(history) == history.len() * p,
        seq_sum(history) / (history.len() as int) == p,
    decreases history.len(),
{
    if history.len() > 1 {
        lemma_steady_clock(history.drop_last(), p);
        assert(seq_sum(history) == (history.len() - 1) * p + p);
        let m = history.len() as int;
        assert((m - 1) * p + p == m * p) by (nonlinear_arith);
    } else {
        assert(history.last() == history[0]);
        reveal_with_fuel(seq_sum, 2);
        assert(seq_sum(history) == p);
    }
    let n = history.len() as int;
    assert((n * p) / n == p) by (nonlinear_arith)
        requires
            n > 0;
}

/// Sums of durations are never negative.
pub proof fn lemma_seq_sum_nonneg(s: Seq<u64>)
    ensures
        seq_sum(s) >= 0,
    decreases s.len(),
{
    if s.len() > 0 {
        lemma_seq_sum_nonneg(s.drop_last());
    }
}

/// The history after a clock tick at `now`: the time since the last tick is added to it (there
/// is nothing to add on the first tick).
pub open spec fn next_history(history: Seq<u64>, last_tick: Option<u64>, now: u64) -> Seq<u64> {
    match last_tick {
        None => history,
        Some(last) => if history.len() < 6 {
            history.push((now - last) as u64)
        } else {
            history.drop_first().push((now - last) as u64)
        },
    }
}

/// The estimated time between ticks, in microseconds: the average of the history, or the
/// default before the clock has ticked twice.
pub open spec fn tick_duration(history: Seq<u64>, last_tick: Option<u64>) -> int {
    match last_tick {
        None => DEFAULT_TICK_DURATION_US as int,
        Some(_) => seq_sum(history) / (history.len() as int),
    }
}

/// Whether swing delays the steps that start on tick `tick`: the off-beat sixteenths.
pub open spec fn swing_applies(swing: Swing, tick: u32) -> bool {
    swing != Swing::Mpc50 && (tick as int) % 12 == 6
}

/// How long swing delays an off-beat step: `tick_duration * (percentage - 50) / 8`
/// microseconds.
pub open spec fn swing_delay(tick_duration: int, swing: Swing) -> int {
    (tick_duration * (swing.percentage() - 50)) / 8
}

/// How long after it starts a step's note ends: its gate percentage of its time division, in
/// microseconds.
pub open spec fn note_off_delay(tick_duration: int, time_division: TimeDivision, length_step_cents: u8) -> int {
    (tick_duration * time_division.ticks() * length_step_cents) / 100
}

/// The messages for a step of `track` that starts on tick `tick`: a note on, at once or delayed
/// by swing; and a note off, after the note's length (plus the swing delay).
pub open spec fn step_messages(track: Track, step: Step, tick: u32, tick_duration: int, swing: Swing) -> Seq<
    ScheduledMidiMessage,
> {
    let on = MidiMessage::NoteOn(track.midi_channel, step.note.value(), step.velocity);
    let off = MidiMessage::NoteOff(track.midi_channel, step.note.value(), 0);
    let off_delay = note_off_delay(tick_duration, track.time_division, step.length_step_cents);
    if swing_applies(swing, tick) {
        let delay = swing_delay(tick_duration, swing);
        seq![
            ScheduledMidiMessage::Delayed(on, delay as u64),
            ScheduledMidiMessage::Delayed(off, (off_delay + delay) as u64),
        ]
    } else {
        seq![ScheduledMidiMessage::Immediate(on), ScheduledMidiMessage::Delayed(off, off_delay as u64)]
    }
}

/// The messages for tick `tick` of a track slot: none for an empty slot or when no step starts.
pub open spec fn slot_messages(slot: Option<Track>, tick: u32, tick_duration: int, swing: Swing) -> Seq<
    ScheduledMidiMessage,
> {
    match slot {
        Some(track) => match track.spec_step_at_tick(tick) {
            Some(step) => step_messages(track, step, tick, tick_duration, swing),
            None => Seq::empty(),
        },
        None => Seq::empty(),
    }
}

/// The messages for tick `tick` of all the track slots, track by track.
pub open spec fn tracks_messages(slots: Seq<Option<Track>>, tick: u32, tick_duration: int, swing: Swing) -> Seq<
    ScheduledMidiMessage,
>
    decreases slots.len(),
{
    if slots.len() == 0 {
        Seq::empty()
    } else {
        tracks_messages(slots.drop_last(), tick, tick_duration, swing) + slot_messages(
            slots.last(),
            tick,
            tick_duration,
            swing,
        )
    }
}

/// Whether the messages for a track slot compute without overflow, and its step can be looked
/// up.
pub open spec fn slot_in_bounds(slot: Option<Track>, tick: u32, tick_duration: int, swing: Swing) -> bool {
    match slot {
        Some(track) => track.has_step_at(tick) && match track.spec_step_at_tick(tick) {
            Some(step) => {
                &&& tick_duration * track.time_division.ticks() <= u64::MAX
                &&& tick_duration * track.time_division.ticks() * step.length_step_cents <= u64::MAX
                &&& swing_applies(swing, tick) ==> note_off_delay(
                    tick_duration,
                    track.time_division,
                    step.length_step_cents,
                ) + swing_delay(tick_duration, swing) <= u64::MAX
            },
            None => true,
        },
        None => true,
    }
}

/// A slot gives at most two messages.
pub proof fn lemma_tracks_messages_len(slots: Seq<Option<Track>>, tick: u32, tick_duration: int, swing: Swing)
    ensures
        tracks_messages(slots, tick, tick_duration, swing).len() <= 2 * slots.len(),
    decreases slots.len(),
{
    if slots.len() > 0 {
        lemma_tracks_messages_len(slots.drop_last(), tick, tick_duration, swing);
    }
}

/// The MIDI message that a scheduled message sends.
pub open spec fn message_of(m: ScheduledMidiMessage) -> MidiMessage {
    match m {
        ScheduledMidiMessage::Immediate(msg) => msg,
        ScheduledMidiMessage::Delayed(msg, _) => msg,
    }
}

/// How long a scheduled message waits before it is sent, in microseconds.
pub open spec fn delay_of(m: ScheduledMidiMessage) -> int {
    match m {
        ScheduledMidiMessage::Immediate(_) => 0,
        ScheduledMidiMessage::Delayed(_, d) => d as int,
    }
}

/// `on` starts a note and `off` ends the same note on the same channel, no earlier.
pub open spec fn note_pair(on: ScheduledMidiMessage, off: ScheduledMidiMessage) -> bool {
    match (message_of(on), message_of(off)) {
        (MidiMessage::NoteOn(c1, n1, _), MidiMessage::NoteOff(c2, n2, _)) => c1 == c2 && n1 == n2
            && delay_of(on) <= delay_of(off),
        _ => false,
    }
}

/// The MIDI channel of a scheduled note message.
pub open spec fn message_channel(m: ScheduledMidiMessage) -> u8 {
    match message_of(m) {
        MidiMessage::NoteOn(c, _, _) => c,
        MidiMessage::NoteOff(c, _, _) => c,
    }
}

/// The note number of a scheduled note message.
pub open spec fn message_note(m: ScheduledMidiMessage) -> u8 {
    match message_of(m) {
        MidiMessage::NoteOn(_, n, _) => n,
        MidiMessage::NoteOff(_, n, _) => n,
    }
}

/// `m` plays the step that track slot `slot` starts on `tick`: on the track's MIDI channel,
/// with the step's note.
pub open spec fn plays_step_of(m: ScheduledMidiMessage, slot: Option<Track>, tick: u32) -> bool {
    &&& slot matches Some(track)
    &&& track.spec_step_at_tick(tick) matches Some(step)
    &&& message_channel(m) == track.midi_channel
    &&& message_note(m) == step.note.value()
}

/// `m` plays the step that some slot of `slots` starts on `tick`, on that slot's track's MIDI
/// channel (see `plays_step_of`).
pub open spec fn plays_step_of_some(m: ScheduledMidiMessage, slots: Seq<Option<Track>>, tick: u32) -> bool {
    exists|j: int| 0 <= j < slots.len() && #[trigger] plays_step_of(m, slots[j], tick)
}

/// Every note message of a tick plays a step that starts on that tick, on the MIDI channel of
/// the track that holds the step: each message comes from some track slot holding a track
/// whose step starts on the tick, carries that track's channel and the step's note.
pub proof fn lemma_messages_on_track_channels(slots: Seq<Option<Track>>, tick: u32, tick_duration: int, swing: Swing)
    ensures
        forall|k: int|
            0 <= k < tracks_messages(slots, tick, tick_duration, swing).len() ==> #[trigger] plays_step_of_some(
                tracks_messages(slots, tick, tick_duration, swing)[k],
                slots,
                tick,
            ),
    decreases slots.len(),
{
    if slots.len() > 0 {
        let prefix = slots.drop_last();
        lemma_messages_on_track_channels(prefix, tick, tick_duration, swing);
        let a = tracks_messages(prefix, tick, tick_duration, swing);
        let b = slot_messages(slots.last(), tick, tick_duration, swing);
        assert(tracks_messages(slots, tick, tick_duration, swing) == a + b);
        let last = slots.len() - 1;
        assert forall|k: int| 0 <= k < tracks_messages(slots, tick, tick_duration, swing).len() implies #[trigger] plays_step_of_some(
            tracks_messages(slots, tick, tick_duration, swing)[k],
            slots,
            tick,
        ) by {
            let mk = tracks_messages(slots, tick, tick_duration, swing)[k];
            if k < a.len() {
                assert(plays_step_of_some(a[k], prefix, tick));
                let j = choose|j: int| 0 <= j < prefix.len() && #[trigger] plays_step_of(a[k], prefix[j], tick);
                assert(mk == a[k]);
                assert(prefix[j] == slots[j]);
                assert(plays_step_of(mk, slots[j], tick));
            } else {
                assert(mk == b[k - a.len()]);
                assert(slots[last] == slots.last());
                let track = slots.last()->0;
                let step = track.spec_step_at_tick(tick)->0;
                assert(b == step_messages(track, step, tick, tick_duration, swing));
                assert(plays_step_of(mk, slots[last], tick));
            }
        }
    }
}

/// The messages of a clock tick play the steps that start on it, each on the MIDI channel of
/// the track holding the step: whatever `advance` sends, some track of the sequencer holds a
/// step starting on the tick with that message's note and carries that message's channel.
pub proof fn lemma_advance_plays_on_track_channels(s: Sequencer, s2: Sequencer, now: u64, out: Seq<ScheduledMidiMessage>)
    requires
        advanced(s, s2, now, out),
    ensures
        forall|k: int| 0 <= k < out.len() ==> #[trigger] plays_step_of_some(out[k], s.spec_tracks(), s.spec_tick()),
{
    if s.spec_playing() {
        lemma_messages_on_track_channels(s.spec_tracks(), s.spec_tick(), s.next_tick_duration(now), s.spec_swing()->0);
    }
}

/// Messages `2k` and `2k + 1` of `m` are a note and its end; the note on waits exactly for the
/// swing delay when swing applies to `tick`, and goes out at once otherwise.
pub open spec fn pair_at(m: Seq<ScheduledMidiMessage>, k: int, tick: u32, tick_duration: int, swing: Swing) -> bool {
    &&& note_pair(m[2 * k], m[2 * k + 1])
    &&& (m[2 * k] is Delayed <==> swing_applies(swing, tick))
    &&& swing_applies(swing, tick) ==> delay_of(m[2 * k]) == swing_delay(tick_duration, swing)
}

/// Every note that a tick starts is also ended: the messages of a tick come in pairs, a note on
/// followed by the note off of the same note on the same channel, sent no earlier. The note on
/// goes out at once, unless swing applies to the tick; then it waits for the swing delay.
#[verifier::spinoff_prover]
pub proof fn lemma_messages_pair_up(slots: Seq<Option<Track>>, tick: u32, tick_duration: int, swing: Swing)
    requires
        tick_duration >= 0,
        forall|j: int| 0 <= j < slots.len() ==> #[trigger] slot_in_bounds(slots[j], tick, tick_duration, swing),
    ensures
        tracks_messages(slots, tick, tick_duration, swing).len() % 2 == 0,
        forall|k: int|
            0 <= k < tracks_messages(slots, tick, tick_duration, swing).len() / 2 ==> #[trigger] pair_at(
                tracks_messages(slots, tick, tick_duration, swing),
                k,
                tick,
                tick_duration,
                swing,
            ),
    decreases slots.len(),
{
    if slots.len() > 0 {
        let prefix = slots.drop_last();
        assert forall|j: int| 0 <= j < prefix.len() implies #[trigger] slot_in_bounds(
            prefix[j],
            tick,
            tick_duration,
            swing,
        ) by {
            assert(slot_in_bounds(slots[j], tick, tick_duration, swing));
        }
        lemma_messages_pair_up(prefix, tick, tick_duration, swing);
        let a = tracks_messages(prefix, tick, tick_duration, swing);
        let b = slot_messages(slots.last(), tick, tick_duration, swing);
        let m = tracks_messages(slots, tick, tick_duration, swing);
        assert(m == a + b);
        assert(slot_in_bounds(slots[slots.len() - 1], tick, tick_duration, swing));
        assert(b.len() == 0 || b.len() == 2);
        if b.len() == 2 {
            let track = slots.last()->0;
            let step = track.spec_step_at_tick(tick)->0;
            let off_delay = note_off_delay(tick_duration, track.time_division, step.length_step_cents);
            let delay = swing_delay(tick_duration, swing);
            assert(0 <= tick_duration * track.time_division.ticks()) by (nonlinear_arith)
                requires
                    tick_duration >= 0,
            ;
            assert(0 <= tick_duration * track.time_division.ticks() * step.length_step_cents)
                by (nonlinear_arith)
                requires
                    tick_duration * track.time_division.ticks() >= 0,
            ;
            assert(0 <= delay) by (nonlinear_arith)
                requires
                    tick_duration >= 0,
                    swing.percentage() >= 50,
                    delay == (tick_duration * (swing.percentage() - 50)) / 8,
            ;
            assert(0 <= off_delay <= u64::MAX);
            assert forall|k: int| 0 <= k < m.len() / 2 implies #[trigger] pair_at(m, k, tick, tick_duration, swing) by {
                if k < a.len() / 2 {
                    assert(pair_at(a, k, tick, tick_duration, swing));
                    assert(m[2 * k] == a[2 * k]);
                    assert(m[2 * k + 1] == a[2 * k + 1]);
                } else {
                    assert(k == a.len() / 2);
                    assert(m[2 * k] == b[0]);
                    assert(m[2 * k + 1] == b[1]);
                }
            }
        } else {
            assert(m =~= a);
        }
    }
}

/// What a MIDI clock tick at `now` does (see `Sequencer::advance`): `s` becomes `s2` and sends
/// `out`.
pub open spec fn advanced(s: Sequencer, s2: Sequencer, now: u64, out: Seq<ScheduledMidiMessage>) -> bool {
    &&& s2.spec_last_tick() == Some(now)
    &&& s2.spec_history() == next_history(s.spec_history(), s.spec_last_tick(), now)
    &&& s2.spec_history().len() <= MIDI_HISTORY_SAMPLE_COUNT
    &&& s2.spec_tracks() == s.spec_tracks()
    &&& s2.spec_params() == s.spec_params()
    &&& s2.spec_playing() == s.spec_playing()
    &&& !s.spec_playing() ==> out == Seq::<ScheduledMidiMessage>::empty() && s2.spec_tick() == s.spec_tick()
    &&& s.spec_playing() ==> out == tracks_messages(
        s.spec_tracks(),
        s.spec_tick(),
        s.next_tick_duration(now),
        s.spec_swing()->0,
    ) && s2.spec_tick() == s.spec_tick() + 1
}

/// The MIDI messages that drive the sequencer: the clock's ticks and the transport controls;
/// `Other` stands for any other message, which the sequencer ignores.
#[derive(Clone, Copy, Debug, PartialEq, Eq, Structural)]
pub enum TransportMessage {
    TimingClock,
    Start,
    Stop,
    Continue,
    Other,
}

/// The sequencer: plays the tracks on the ticks of an external MIDI clock.
pub struct Sequencer {
    pub tracks: heapless::Vec<Option<Track>, 16>,
    tick: u32,
    playing: bool,
    params: ParamList,
    last_tick_instant_us: Option<u64>,
    midi_tick_history: heapless::HistoryBuffer<u64, 6>,
}

impl Sequencer {
    /// The track slots.
    pub closed spec fn spec_tracks(self) -> Seq<Option<Track>> {
        track_vec_contents(self.tracks)
    }

    /// The number of clock ticks played since playing started.
    pub closed spec fn spec_tick(self) -> u32 {
        self.tick
    }

    /// Whether the sequencer is playing.
    pub closed spec fn spec_playing(self) -> bool {
        self.playing
    }

    /// The sequencer's parameters: the swing.
    pub closed spec fn spec_params(self) -> ParamList {
        self.params
    }

    /// When the clock last ticked, in microseconds.
    pub closed spec fn spec_last_tick(self) -> Option<u64> {
        self.last_tick_instant_us
    }

    /// The last (up to six) times between clock ticks, oldest first.
    pub closed spec fn spec_history(self) -> Seq<u64> {
        history_contents(self.midi_tick_history)
    }

    /// The swing, when the first parameter holds one.
    pub open spec fn spec_swing(self) -> Option<Swing> {
        if params_of(self.spec_params()).len() >= 1 {
            match params_of(self.spec_params())[0].spec_value() {
                ParamValue::Swing(s) => Some(s),
                _ => None,
            }
        } else {
            None
        }
    }

    /// Whether a clock tick at `now` can update the tempo estimate: the clock doesn't go back,
    /// and the durations sum without overflow.
    pub open spec fn tick_in_bounds(self, now: u64) -> bool {
        match self.spec_last_tick() {
            None => true,
            Some(last) => last <= now && seq_sum(next_history(self.spec_history(), self.spec_last_tick(), now))
                <= u64::MAX,
        }
    }

    /// The estimated time between ticks after a clock tick at `now`.
    pub open spec fn next_tick_duration(self, now: u64) -> int {
        tick_duration(
            next_history(self.spec_history(), self.spec_last_tick(), now),
            self.spec_last_tick(),
        )
    }

    /// Whether `advance(now)` runs without overflow and finds every step it plays: the tempo
    /// estimate can be updated; and when playing, the first parameter holds the swing, the tick
    /// count can go up, and every track's messages compute.
    pub open spec fn can_advance(self, now: u64) -> bool {
        &&& self.tick_in_bounds(now)
        &&& self.spec_playing() ==> {
            &&& self.spec_swing() is Some
            &&& self.spec_tick() < u32::MAX
            &&& self.next_tick_duration(now) * (self.spec_swing()->0.percentage() - 50) <= u64::MAX
            &&& forall|i: int|
                0 <= i < self.spec_tracks().len() ==> #[trigger] slot_in_bounds(
                    self.spec_tracks()[i],
                    self.spec_tick(),
                    self.next_tick_duration(now),
                    self.spec_swing()->0,
                )
        }
    }
}


impl Default for Sequencer {
    /// A stopped sequencer at tick 0 with 16 empty track slots, no swing, and no clock ticks
    /// seen yet.
    fn default() -> (r: Sequencer)
        ensures
            r.spec_tracks() == Seq::new(TRACK_COUNT as nat, |i: int| None::<Track>),
            r.spec_tick() == 0,
            !r.spec_playing(),
            params_of(r.spec_params()).len() == 1,
            params_of(r.spec_params())[0].spec_name() == "SWING"@,
            params_of(r.spec_params())[0].spec_min() == ParamValue::Swing(Swing::Mpc50),
            params_of(r.spec_params())[0].spec_max() == ParamValue::Swing(Swing::Mpc75),
            r.spec_swing() == Some(Swing::Mpc50),
            r.spec_last_tick() is None,
            r.spec_history() == Seq::<u64>::empty(),
    {
        let mut tracks = track_vec_new();
        let mut i: usize = 0;
        while i < TRACK_COUNT
            invariant
                i <= TRACK_COUNT,
                track_vec_contents(tracks) == Seq::new(i as nat, |j: int| None::<Track>),
            decreases TRACK_COUNT - i,
        {
            track_vec_push(&mut tracks, None);
            i = i + 1;
            assert(track_vec_contents(tracks) =~= Seq::new(i as nat, |j: int| None::<Track>));
        }
        let mut params = param_list_new();
        proof {
            reveal_strlit("SWING");
            crate::text::lemma_ascii_len("SWING");
        }
        param_list_push(&mut params, Param::new_swing_param("SWING"));
        Sequencer {
            tracks,
            tick: 0,
            playing: false,
            params,
            last_tick_instant_us: None,
            midi_tick_history: history_new(),
        }
    }
}

impl Sequencer {
    /// Whether the sequencer is playing.
    pub fn playing(&self) -> (r: bool)
        ensures
            r == self.spec_playing(),
    {
        self.playing
    }

    /// The sequencer's parameters.
    pub fn params(&self) -> (r: &ParamList)
        ensures
            *r == self.spec_params(),
    {
        &self.params
    }

    /// The sequencer's parameters, to change in place.
    pub fn params_mut(&mut self) -> (r: &mut ParamList)
        ensures
            *r == old(self).spec_params(),
            final(self).spec_params() == *final(r),
            final(self).spec_tracks() == old(self).spec_tracks(),
            final(self).spec_tick() == old(self).spec_tick(),
            final(self).spec_playing() == old(self).spec_playing(),
            final(self).spec_last_tick() == old(self).spec_last_tick(),
            final(self).spec_history() == old(self).spec_history(),
    {
        &mut self.params
    }

    /// The number of clock ticks played since playing started.
    pub fn tick(&self) -> (r: u32)
        ensures
            r == self.spec_tick(),
    {
        self.tick
    }

    /// Play from the start: the tick count goes back to 0.
    pub fn start_playing(&mut self)
        ensures
            final(self).spec_tick() == 0,
            final(self).spec_playing(),
            final(self).spec_tracks() == old(self).spec_tracks(),
            final(self).spec_params() == old(self).spec_params(),
            final(self).spec_last_tick() == old(self).spec_last_tick(),
            final(self).spec_history() == old(self).spec_history(),
    {
        self.tick = 0;
        self.playing = true;
    }

    /// Stop playing; the tick count stays where it is.
    pub fn stop_playing(&mut self)
        ensures
            !final(self).spec_playing(),
            final(self).spec_tick() == old(self).spec_tick(),
            final(self).spec_tracks() == old(self).spec_tracks(),
            final(self).spec_params() == old(self).spec_params(),
            final(self).spec_last_tick() == old(self).spec_last_tick(),
            final(self).spec_history() == old(self).spec_history(),
    {
        self.playing = false;
    }

    /// Play on from where playing stopped.
    pub fn continue_playing(&mut self)
        ensures
            final(self).spec_playing(),
            final(self).spec_tick() == old(self).spec_tick(),
            final(self).spec_tracks() == old(self).spec_tracks(),
            final(self).spec_params() == old(self).spec_params(),
            final(self).spec_last_tick() == old(self).spec_last_tick(),
            final(self).spec_history() == old(self).spec_history(),
    {
        self.playing = true;
    }

    /// The swing, held by the first parameter.
    pub fn swing(&self) -> (r: Swing)
        requires
            self.spec_swing() is Some,
        ensures
            r == self.spec_swing()->0,
    {
        match param_list_get(&self.params, 0).value() {
            ParamValue::Swing(s) => s,
            _ => Swing::Mpc50,
        }
    }

    /// Set the swing, held by the first parameter.
    pub fn set_swing(&mut self, swing: Swing)
        requires
            params_of(old(self).spec_params()).len() >= 1,
        ensures
            params_of(final(self).spec_params()) == params_of(old(self).spec_params()).update(
                0,
                params_of(old(self).spec_params())[0].with_value(ParamValue::Swing(swing)),
            ),
            final(self).spec_swing() == Some(swing),
            final(self).spec_tracks() == old(self).spec_tracks(),
            final(self).spec_tick() == old(self).spec_tick(),
            final(self).spec_playing() == old(self).spec_playing(),
            final(self).spec_last_tick() == old(self).spec_last_tick(),
            final(self).spec_history() == old(self).spec_history(),
    {
        param_list_get_mut(&mut self.params, 0).set(ParamValue::Swing(swing));
        proof {
            params_of(old(self).spec_params())[0].lemma_with_value(ParamValue::Swing(swing));
        }
    }

    /// Put `new_track` in slot `track_num`, replacing what was there, and hand it back to
    /// change in place.
    pub fn enable_track(&mut self, track_num: u8, new_track: Track) -> (r: &mut Track)
        requires
            (track_num as int) < old(self).spec_tracks().len(),
        ensures
            *r == new_track,
            final(self).spec_tracks() == old(self).spec_tracks().update(track_num as int, Some(*final(r))),
            final(self).spec_tick() == old(self).spec_tick(),
            final(self).spec_playing() == old(self).spec_playing(),
            final(self).spec_params() == old(self).spec_params(),
            final(self).spec_last_tick() == old(self).spec_last_tick(),
            final(self).spec_history() == old(self).spec_history(),
    {
        track_vec_get_mut(&mut self.tracks, track_num as usize).insert(new_track)
    }

    /// Track slot `i`, to change in place.
    pub fn track_slot_mut(&mut self, i: usize) -> (r: &mut Option<Track>)
        requires
            i < old(self).spec_tracks().len(),
        ensures
            *r == old(self).spec_tracks()[i as int],
            final(self).spec_tracks() == old(self).spec_tracks().update(i as int, *final(r)),
            final(self).spec_tick() == old(self).spec_tick(),
            final(self).spec_playing() == old(self).spec_playing(),
            final(self).spec_params() == old(self).spec_params(),
            final(self).spec_last_tick() == old(self).spec_last_tick(),
            final(self).spec_history() == old(self).spec_history(),
    {
        track_vec_get_mut(&mut self.tracks, i)
    }

    /// The track slots.
    pub fn track_slots(&self) -> (r: &[Option<Track>])
        ensures
            r@ == self.spec_tracks(),
    {
        track_vec_as_slice(&self.tracks)
    }

    /// Record a clock tick at `now_us` and estimate the time between ticks, in microseconds:
    /// the average of the last six times between ticks, or 19230 (130 BPM) on the first tick.
    #[verifier::spinoff_prover]
    pub fn average_tick_duration(&mut self, now_us: u64) -> (r: u64)
        requires
            old(self).tick_in_bounds(now_us),
        ensures
            r == old(self).next_tick_duration(now_us),
            final(self).spec_last_tick() == Some(now_us),
            final(self).spec_history() == next_history(old(self).spec_history(), old(self).spec_last_tick(), now_us),
            final(self).spec_history().len() <= MIDI_HISTORY_SAMPLE_COUNT,
            final(self).spec_tracks() == old(self).spec_tracks(),
            final(self).spec_tick() == old(self).spec_tick(),
            final(self).spec_playing() == old(self).spec_playing(),
            final(self).spec_params() == old(self).spec_params(),
    {
        let mut tick_duration = DEFAULT_TICK_DURATION_US;
        if let Some(last_tick_instant_us) = self.last_tick_instant_us {
            let last_tick_duration = now_us - last_tick_instant_us;
            history_write(&mut self.midi_tick_history, last_tick_duration);
            let ghost contents = history_contents(self.midi_tick_history);
            let samples = history_as_slice(&self.midi_tick_history);
            proof {
                let k = choose|k: int|
                    0 <= k <= contents.len() && samples@ == contents.skip(k) + contents.take(k);
                lemma_seq_sum_concat(contents.skip(k), contents.take(k));
                lemma_seq_sum_prefix(contents, k);
            }
            let mut sum: u64 = 0;
            let mut i: usize = 0;
            while i < samples.len()
                invariant
                    i <= samples@.len(),
                    sum == seq_sum(samples@.take(i as int)),
                    seq_sum(samples@) <= u64::MAX,
                decreases samples@.len() - i,
            {
                proof {
                    assert(samples@.take(i as int + 1).drop_last() =~= samples@.take(i as int));
                    lemma_seq_sum_prefix(samples@, i as int + 1);
                }
                sum = sum + samples[i];
                i = i + 1;
            }
            proof {
                assert(samples@.take(i as int) =~= samples@);
            }
            let count = history_len(&self.midi_tick_history);
            tick_duration = sum / (count as u64);
        } else {
            // Before the first tick nothing is written; the history still keeps at most six values.
            let _kept = history_len(&self.midi_tick_history);
        }
        self.last_tick_instant_us = Some(now_us);
        tick_duration
    }

    /// Play one MIDI clock tick at `now_us`: update the tempo estimate and, when playing, return
    /// the messages of the steps that start on this tick, track by track, and count the tick.
    /// A step's note on goes out at once, or after the swing delay on an off-beat sixteenth;
    /// its note off follows after the step's length. When stopped, nothing is returned and the
    /// tick count stays.
    #[verifier::spinoff_prover]
    pub fn advance(&mut self, now_us: u64) -> (r: MessageVec)
        requires
            old(self).can_advance(now_us),
        ensures
            advanced(*old(self), *final(self), now_us, message_vec_contents(r)),
    {
        let tick_duration = self.average_tick_duration(now_us);
        let mut output_messages = message_vec_new();
        if !self.playing {
            return output_messages;
        }
        let swing = self.swing();
        let tick = self.tick;
        let apply_swing = swing != Swing::Mpc50 && tick % 12 == 6;
        let swing_delay = (tick_duration * ((swing.as_percentage() - 50) as u64)) / 8;
        let slots = track_vec_as_slice(&self.tracks);
        let ghost dur = tick_duration as int;
        let mut i: usize = 0;
        while i < slots.len()
            invariant
                i <= slots@.len(),
                slots@.len() <= 16,
                slots@ == self.spec_tracks(),
                tick == self.spec_tick(),
                swing == self.spec_swing()->0,
                dur == tick_duration,
                apply_swing == swing_applies(swing, tick),
                swing_delay == self::swing_delay(dur, swing),
                forall|j: int|
                    0 <= j < slots@.len() ==> #[trigger] slot_in_bounds(slots@[j], tick, dur, swing),
                message_vec_contents(output_messages) == tracks_messages(slots@.take(i as int), tick, dur, swing),
            decreases slots@.len() - i,
        {
            proof {
                assert(slot_in_bounds(slots@[i as int], tick, dur, swing));
                assert(slots@.take(i as int + 1).drop_last() =~= slots@.take(i as int));
                lemma_tracks_messages_len(slots@.take(i as int), tick, dur, swing);
            }
            match &slots[i] {
                Some(track) => {
                    match track.step_at_tick(tick) {
                        Some(step) => {
                            let note = step.note.number();
                            let note_on_message = MidiMessage::NoteOn(track.midi_channel, note, step.velocity);
                            if apply_swing {
                                message_vec_push(
                                    &mut output_messages,
                                    ScheduledMidiMessage::Delayed(note_on_message, swing_delay),
                                );
                            } else {
                                message_vec_push(
                                    &mut output_messages,
                                    ScheduledMidiMessage::Immediate(note_on_message),
                                );
                            }
                            let note_off_message = MidiMessage::NoteOff(track.midi_channel, note, 0);
                            let mut note_off_time = (tick_duration * (TimeDivision::division_length_24ppqn(
                                track.time_division,
                            ) as u64) * (step.length_step_cents as u64)) / 100;
                            if apply_swing {
                                note_off_time = note_off_time + swing_delay;
                            }
                            message_vec_push(
                                &mut output_messages,
                                ScheduledMidiMessage::Delayed(note_off_message, note_off_time),
                            );
                        },
                        None => {},
                    }
                },
                None => {},
            }
            i = i + 1;
        }
        proof {
            assert(slots@.take(i as int) =~= slots@);
        }
        self.tick = self.tick + 1;
        output_messages
    }

    /// React to a MIDI message from the master device: a clock tick advances the sequencer
    /// (returning the messages to send), start plays from the beginning, stop stops, continue
    /// plays on; other messages change nothing. Only a clock tick returns messages.
    pub fn handle_message(&mut self, message: TransportMessage, now_us: u64) -> (r: MessageVec)
        requires
            message == TransportMessage::TimingClock ==> old(self).can_advance(now_us),
        ensures
            message == TransportMessage::TimingClock ==> advanced(*old(self), *final(self), now_us, message_vec_contents(r)),
            message != TransportMessage::TimingClock ==> {
                &&& message_vec_contents(r) == Seq::<ScheduledMidiMessage>::empty()
                &&& final(self).spec_tracks() == old(self).spec_tracks()
                &&& final(self).spec_params() == old(self).spec_params()
                &&& final(self).spec_last_tick() == old(self).spec_last_tick()
                &&& final(self).spec_history() == old(self).spec_history()
                &&& match message {
                    TransportMessage::Start => final(self).spec_playing() && final(self).spec_tick() == 0,
                    TransportMessage::Stop => !final(self).spec_playing() && final(self).spec_tick() == old(self).spec_tick(),
                    TransportMessage::Continue => final(self).spec_playing() && final(self).spec_tick() == old(self).spec_tick(),
                    _ => final(self).spec_playing() == old(self).spec_playing() && final(self).spec_tick() == old(self).spec_tick(),
                }
            },
    {
        match message {
            TransportMessage::TimingClock => self.advance(now_us),
            TransportMessage::Start => {
                self.start_playing();
                message_vec_new()
            },
            TransportMessage::Stop => {
                self.stop_playing();
                message_vec_new()
            },
            TransportMessage::Continue => {
                self.continue_playing();
                message_vec_new()
            },
            TransportMessage::Other => message_vec_new(),
        }
    }

    /// The sum of the times between clock ticks in the history.
    fn history_sum(&self) -> (r: u128)
        ensures
            r == seq_sum(self.spec_history()),
            r <= 6 * 0xFFFF_FFFF_FFFF_FFFFu128,
    {
        let ghost contents = self.spec_history();
        let samples = history_as_slice(&self.midi_tick_history);
        let _count = history_len(&self.midi_tick_history);
        proof {
            let k = choose|k: int| 0 <= k <= contents.len() && samples@ == contents.skip(k) + contents.take(k);
            lemma_seq_sum_concat(contents.skip(k), contents.take(k));
            lemma_seq_sum_prefix(contents, k);
        }
        let mut sum: u128 = 0;
        let mut i: usize = 0;
        while i < samples.len()
            invariant
                i <= samples@.len(),
                samples@.len() <= 6,
                sum == seq_sum(samples@.take(i as int)),
                sum <= i * 0xFFFF_FFFF_FFFF_FFFFu128,
            decreases samples@.len() - i,
        {
            proof {
                assert(samples@.take(i as int + 1).drop_last() =~= samples@.take(i as int));
            }
            sum = sum + samples[i] as u128;
            i = i + 1;
        }
        proof {
            assert(samples@.take(i as int) =~= samples@);
            assert(i * 0xFFFF_FFFF_FFFF_FFFFu128 <= 6 * 0xFFFF_FFFF_FFFF_FFFFu128) by (nonlinear_arith)
                requires
                    i <= 6;
        }
        sum
    }

    /// Whether `advance(now_us)` can run (see `can_advance`): the checks that keep it free of
    /// overflow, made on the values it would compute.
    #[verifier::spinoff_prover]
    pub fn can_advance_at(&self, now_us: u64) -> (r: bool)
        ensures
            r == self.can_advance(now_us),
    {
        let duration: u128 = match self.last_tick_instant_us {
            None => DEFAULT_TICK_DURATION_US as u128,
            Some(last) => {
                if last > now_us {
                    return false;
                }
                let ghost h = self.spec_history();
                let ghost next = next_history(h, self.spec_last_tick(), now_us);
                let sum = self.history_sum();
                let len = history_len(&self.midi_tick_history);
                let new_sample = now_us - last;
                proof {
                    lemma_seq_sum_single(new_sample);
                }
                let next_sum: u128 = if len < MIDI_HISTORY_SAMPLE_COUNT {
                    proof {
                        lemma_seq_sum_concat(h, seq![new_sample]);
                        assert(next == h + seq![new_sample]);
                    }
                    sum + new_sample as u128
                } else {
                    let oldest = match history_oldest(&self.midi_tick_history) {
                        Some(o) => o,
                        None => 0,
                    };
                    proof {
                        lemma_seq_sum_nonneg(h.drop_first());
                        lemma_seq_sum_concat(h.drop_first(), seq![new_sample]);
                        lemma_seq_sum_concat(seq![h[0]], h.drop_first());
                        assert(seq![h[0]] + h.drop_first() =~= h);
                        assert(next == h.drop_first() + seq![new_sample]);
                        lemma_seq_sum_single(h[0]);
                    }
                    sum - oldest as u128 + new_sample as u128
                };
                proof {
                    lemma_seq_sum_single(new_sample);
                }
                if next_sum > u64::MAX as u128 {
                    return false;
                }
                let next_len: u128 = if len < MIDI_HISTORY_SAMPLE_COUNT { len as u128 + 1 } else { len as u128 };
                next_sum / next_len
            },
        };
        assert(duration == self.next_tick_duration(now_us));
        if !self.playing {
            return true;
        }
        if param_list_len(&self.params) < 1 {
            return false;
        }
        let swing = match param_list_get(&self.params, 0).value() {
            ParamValue::Swing(s) => s,
            _ => return false,
        };
        if self.tick == u32::MAX {
            return false;
        }
        let swing_extra: u128 = (swing.as_percentage() - 50) as u128;
        assert(duration <= u64::MAX);
        assert(duration * swing_extra <= u64::MAX * 25) by (nonlinear_arith)
            requires
                duration <= u64::MAX,
                swing_extra <= 25;
        if duration * swing_extra > u64::MAX as u128 {
            return false;
        }
        let tick = self.tick;
        let apply_swing = swing != Swing::Mpc50 && tick % 12 == 6;
        let delay: u128 = (duration * swing_extra) / 8;
        let slots = track_vec_as_slice(&self.tracks);
        let mut i: usize = 0;
        while i < slots.len()
            invariant
                i <= slots@.len(),
                slots@ == self.spec_tracks(),
                self.spec_swing() == Some(swing),
                tick == self.spec_tick(),
                duration == self.next_tick_duration(now_us),
                duration <= u64::MAX,
                apply_swing == swing_applies(swing, tick),
                delay == swing_delay(duration as int, swing),
                forall|j: int| 0 <= j < i ==> #[trigger] slot_in_bounds(slots@[j], tick, duration as int, swing),
                self.spec_playing(),
                self.tick_in_bounds(now_us),
                self.spec_tick() < u32::MAX,
                self.next_tick_duration(now_us) * (swing.percentage() - 50) <= u64::MAX,
            decreases slots@.len() - i,
        {
            match &slots[i] {
                Some(track) => {
                    let ticks = TimeDivision::division_length_24ppqn(track.time_division) as u128;
                    if tick % (ticks as u32) == 0 {
                        if track.length == 0 {
                            assert(!slot_in_bounds(slots@[i as int], tick, duration as int, swing));
                            return false;
                        }
                        let step_num = track.step_num(tick) as usize;
                        if step_num >= track.sequence.len() {
                            assert(!slot_in_bounds(slots@[i as int], tick, duration as int, swing));
                            return false;
                        }
                        match &track.sequence.as_slice()[step_num] {
                            Some(step) => {
                                let cents = step.length_step_cents as u128;
                                proof {
                                    assert(duration * ticks <= u64::MAX * 96) by (nonlinear_arith)
                                        requires
                                            duration <= u64::MAX,
                                            ticks <= 96;
                                }
                                if duration * ticks > u64::MAX as u128 {
                                    assert(!slot_in_bounds(slots@[i as int], tick, duration as int, swing));
                                    return false;
                                }
                                proof {
                                    assert(duration * ticks * cents <= u64::MAX * 255) by (nonlinear_arith)
                                        requires
                                            duration * ticks <= u64::MAX,
                                            cents <= 255;
                                }
                                if duration * ticks * cents > u64::MAX as u128 {
                                    assert(!slot_in_bounds(slots@[i as int], tick, duration as int, swing));
                                    return false;
                                }
                                if apply_swing && (duration * ticks * cents) / 100 + delay > u64::MAX as u128 {
                                    assert(!slot_in_bounds(slots@[i as int], tick, duration as int, swing));
                                    return false;
                                }
                            },
                            None => {},
                        }
                    }
                },
                None => {},
            }
            i = i + 1;
        }
        true
    }
}

} // verus!
