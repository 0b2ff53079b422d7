use microgroove_sequencer::machine_resources::MachineResources;
use microgroove_sequencer::midi::MidiMessage;
use microgroove_sequencer::sequence_generator::SequenceGenerator;
use microgroove_sequencer::sequencer::{
    ScheduledMidiMessage, Sequencer, Swing, TransportMessage, DEFAULT_TICK_DURATION_US,
};
use microgroove_sequencer::{Track, TRACK_COUNT};

fn sequencer_with_first_track() -> Sequencer {
    let mut sequencer = Sequencer::default();
    let generator = SequenceGenerator::default();
    let mut machine_resources = MachineResources::new();
    let mut new_track = Track::default();
    new_track.sequence = generator.generate(new_track.length, &mut machine_resources);
    sequencer.enable_track(0, new_track);
    sequencer
}

fn play_48_ticks(sequencer: &mut Sequencer) -> Vec<ScheduledMidiMessage> {
    let mut now_us = 0;
    let mut output_messages = vec![];
    for _ in 0..48 {
        let step_messages = sequencer.advance(now_us);
        output_messages.extend(step_messages.into_iter());
        now_us += DEFAULT_TICK_DURATION_US;
    }
    output_messages
}

#[test]
fn sequencer_default_should_have_empty_tracks() {
    let sequencer = Sequencer::default();
    assert!(sequencer.tracks.iter().all(|track| track.is_none()));
}

#[test]
fn sequencer_enable_track_should_insert_new_track() {
    let sequencer = sequencer_with_first_track();
    assert!(sequencer.tracks[0].is_some());
    assert!(sequencer.tracks[1..TRACK_COUNT].iter().all(|track| track.is_none()));
}

#[test]
fn sequencer_should_start_stop_and_continue_playing() {
    let mut sequencer = Sequencer::default();
    assert_eq!(false, sequencer.playing());
    assert_eq!(0, sequencer.tick());
    sequencer.start_playing();
    assert_eq!(true, sequencer.playing());

    sequencer.advance(1);
    sequencer.stop_playing();
    assert_eq!(false, sequencer.playing());

    sequencer.advance(1); // should be ignored because sequencer stopped
    sequencer.continue_playing();
    sequencer.advance(1);
    assert_eq!(true, sequencer.playing());
    assert_eq!(2, sequencer.tick());

    sequencer.stop_playing();
    assert_eq!(2, sequencer.tick());

    sequencer.start_playing();
    assert_eq!(true, sequencer.playing());
    assert_eq!(0, sequencer.tick());
}

#[test]
fn sequencer_should_calculate_average_tick_duration() {
    let mut sequencer = Sequencer::default();
    let tick_duration = sequencer.average_tick_duration(0);
    assert_eq!(DEFAULT_TICK_DURATION_US, tick_duration);

    let tick_duration = sequencer.average_tick_duration(100);
    assert_eq!(100, tick_duration);

    sequencer.average_tick_duration(200);
    sequencer.average_tick_duration(300);
    sequencer.average_tick_duration(350);
    sequencer.average_tick_duration(400);
    let tick_duration = sequencer.average_tick_duration(450);
    assert_eq!(75, tick_duration);
}

#[test]
fn sequencer_advance_should_output_immediate_note_on_and_delayed_note_off_messages() {
    let mut sequencer = sequencer_with_first_track();
    sequencer.start_playing();
    let output_messages = play_48_ticks(&mut sequencer);
    assert_eq!(16, output_messages.len()); // 8 note on/note off pairs
    let expected_note_on = ScheduledMidiMessage::Immediate(MidiMessage::NoteOn(0, 60, 127));
    let expected_note_off = ScheduledMidiMessage::Delayed(MidiMessage::NoteOff(0, 60, 0), 92304);
    for i in 0..8 {
        assert_eq!(expected_note_on, output_messages[2 * i]);
        assert_eq!(expected_note_off, output_messages[2 * i + 1]);
    }
}

#[test]
fn sequencer_advance_with_swing_enabled_should_output_delayed_note_on_messages_for_swung_steps() {
    let mut sequencer = sequencer_with_first_track();
    sequencer.set_swing(Swing::Mpc54);
    sequencer.start_playing();
    let output_messages = play_48_ticks(&mut sequencer);
    assert_eq!(16, output_messages.len()); // 8 note on/note off pairs
    let expected_note_on = ScheduledMidiMessage::Immediate(MidiMessage::NoteOn(0, 60, 127));
    let expected_note_on_with_swing = ScheduledMidiMessage::Delayed(MidiMessage::NoteOn(0, 60, 127), 9615);
    let expected_note_off = ScheduledMidiMessage::Delayed(MidiMessage::NoteOff(0, 60, 0), 92304);
    let expected_note_off_with_swing = ScheduledMidiMessage::Delayed(MidiMessage::NoteOff(0, 60, 0), 92304 + 9615);
    for i in 0..8 {
        if i % 2 == 0 {
            assert_eq!(expected_note_on, output_messages[2 * i]);
            assert_eq!(expected_note_off, output_messages[2 * i + 1]);
        } else {
            assert_eq!(expected_note_on_with_swing, output_messages[2 * i]);
            assert_eq!(expected_note_off_with_swing, output_messages[2 * i + 1]);
        }
    }
}

#[test]
fn sequencer_advance_when_stopped_sends_nothing() {
    let mut sequencer = sequencer_with_first_track();
    assert!(sequencer.advance(0).is_empty());
    assert_eq!(0, sequencer.tick());
}

#[test]
fn sequencer_handles_transport_messages() {
    let mut sequencer = sequencer_with_first_track();
    assert!(sequencer.handle_message(TransportMessage::Start, 0).is_empty());
    assert!(sequencer.playing());
    let messages = sequencer.handle_message(TransportMessage::TimingClock, 0);
    assert_eq!(2, messages.len());
    assert_eq!(1, sequencer.tick());
    assert!(sequencer.handle_message(TransportMessage::Stop, 10).is_empty());
    assert!(!sequencer.playing());
    assert!(sequencer.handle_message(TransportMessage::Other, 10).is_empty());
    assert!(sequencer.handle_message(TransportMessage::Continue, 10).is_empty());
    assert!(sequencer.playing());
    assert_eq!(1, sequencer.tick());
}

#[test]
fn sequencer_can_advance_unless_the_clock_goes_back() {
    let mut sequencer = sequencer_with_first_track();
    sequencer.start_playing();
    assert!(sequencer.can_advance_at(1000));
    sequencer.advance(1000);
    assert!(sequencer.can_advance_at(2000));
    assert!(!sequencer.can_advance_at(999));
}

#[test]
fn swing_percentages_and_numbers() {
    assert_eq!(50, Swing::Mpc50.as_percentage());
    assert_eq!(75, Swing::Mpc75.as_percentage());
    assert_eq!(Ok(Swing::Mpc66), Swing::try_from(4u8));
    assert_eq!(Err(()), Swing::try_from(7u8));
    assert_eq!(Swing::Mpc50, Swing::default());
    let mut sequencer = Sequencer::default();
    sequencer.set_swing(Swing::Mpc70);
    assert_eq!(Swing::Mpc70, sequencer.swing());
}

#[test]
fn sequencer_averages_only_the_last_six_tick_durations() {
    let mut sequencer = Sequencer::default();
    let mut now = 0u64;
    sequencer.average_tick_duration(now);
    for _ in 0..6 {
        now += 1000;
        sequencer.average_tick_duration(now);
    }
    assert!(sequencer.can_advance_at(now + 10));
    for _ in 0..6 {
        now += 100;
        sequencer.average_tick_duration(now);
    }
    assert_eq!(100, sequencer.average_tick_duration(now + 100));
}
