# helgoboss-midi (verified)

Data structures for MIDI messages, with their behaviour stated and proved in Verus.

- `src/types.rs`: bounded value types (`U7`, `U14`, `Channel`, `KeyNumber`,
  `ControllerNumber`, `ProgramNumber`), each keeping its range as a type invariant.
- `src/util.rs`: splitting and joining 14-bit values.
- `src/midi_message.rs`: message kinds, super kinds and main categories, status-byte
  decoding, and the `MidiMessage` trait whose default methods answer every query from the
  three bytes of a message.
- `src/raw_midi_message.rs`: `RawMidiMessage`, a message held as its bytes, and its
  constructors.
- `src/structured_midi_message.rs`: `StructuredMidiMessage`, a message as an enum, and the
  laws that relate it to the byte form.
- `app/lib.rs`: a copy of `MidiMessageKind` with the `num_enum` and `strum` derives, and
  conversions to and from the library's kind.
