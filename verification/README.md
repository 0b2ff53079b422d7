# microgroove_sequencer

The model and logic of Microgroove, an open-source hardware MIDI sequence generator, with its
behaviour stated in contracts and proved with Verus.

- `src/` is the library. Tracks hold sequences of steps; machines (unit, random melody, Grids
  drum patterns) generate rhythms and melodies; the quantizer fits notes to scales; parts mask
  steps for call-and-response and ABAC structures; the sequencer turns the tracks into
  scheduled MIDI messages on each tick of an external MIDI clock; the input module applies
  encoder turns to the parameters of the selected page; the layout module computes where the
  display draws things.
- `src/storage.rs` holds the trusted wrappers around the fixed-capacity collections of the
  `heapless` crate that the library stores its data in; `src/machine_resources.rs` the one
  around the `rand` crate.
- `tests/` runs the library on concrete values.
- `app/` is the firmware's event handling (MIDI in and out, buttons, encoders, display), built
  for a host: MIDI bytes from standard input drive the sequencer.
