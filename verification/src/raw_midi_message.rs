use vstd::prelude::*;
use crate::midi_message::{
    build_channel_status_byte, get_midi_message_kind_from_status_byte, is_channel_kind,
    is_status_byte, kind_lookup_number, kind_of_status_byte, kind_value, lemma_channel_status_byte,
    super_kind_of, KindFromByteError, MidiMessage, MidiMessageKind, MidiMessageSuperKind,
};
use crate::structured_midi_message::StructuredMidiMessage;
use crate::types::{Channel, ControllerNumber, KeyNumber, ProgramNumber, U7, U14};
use crate::util::{
    extract_high_7_bit_value_from_14_bit_value, extract_low_7_bit_value_from_14_bit_value,
};

verus! {

broadcast use crate::types::group_value_types;

/// A MIDI message held as its three bytes: a valid status byte and two 7-bit data bytes.
#[derive(Clone, Copy, Debug, PartialEq, Eq, Structural, Hash)]
pub struct RawMidiMessage {
    status_byte: u8,
    data_byte_1: U7,
    data_byte_2: U7,
}

impl RawMidiMessage {
    #[verifier::type_invariant]
    spec fn has_status_byte(self) -> bool {
        is_status_byte(self.status_byte)
    }

    /// The message made of these bytes; `status_byte` must be a status byte.
    pub fn from_bytes_unchecked(status_byte: u8, data_byte_1: U7, data_byte_2: U7) -> (r:
        RawMidiMessage)
        requires
            is_status_byte(status_byte),
        ensures
            r.status_byte_spec() == status_byte,
            r.data_byte_1_spec() == data_byte_1@,
            r.data_byte_2_spec() == data_byte_2@,
    {
        RawMidiMessage { status_byte, data_byte_1, data_byte_2 }
    }

    /// The message made of these bytes; an error holding the number looked up for the kind
    /// (see [`kind_lookup_number`]) if `status_byte` is no status byte.
    pub fn from_bytes(status_byte: u8, data_byte_1: U7, data_byte_2: U7) -> (r: Result<
        RawMidiMessage,
        KindFromByteError,
    >)
        ensures
            match r {
                Ok(m) => {
                    &&& is_status_byte(status_byte)
                    &&& m.status_byte_spec() == status_byte
                    &&& m.data_byte_1_spec() == data_byte_1@
                    &&& m.data_byte_2_spec() == data_byte_2@
                },
                Err(e) => !is_status_byte(status_byte) && e.number == kind_lookup_number(
                    status_byte,
                ),
            },
    {
        match get_midi_message_kind_from_status_byte(status_byte) {
            Ok(_) => Ok(RawMidiMessage::from_bytes_unchecked(status_byte, data_byte_1, data_byte_2)),
            Err(e) => Err(e),
        }
    }

    /// A channel message of `kind` on `channel` with the given data bytes.
    pub fn channel_message(
        kind: MidiMessageKind,
        channel: Channel,
        data_byte_1: U7,
        data_byte_2: U7,
    ) -> (r: RawMidiMessage)
        requires
            is_channel_kind(kind),
        ensures
            r.status_byte_spec() == kind_value(kind) + channel@,
            kind_of_status_byte(r.status_byte_spec()) == Some(kind),
            r.data_byte_1_spec() == data_byte_1@,
            r.data_byte_2_spec() == data_byte_2@,
    {
        let status_byte = build_channel_status_byte(kind, channel);
        RawMidiMessage::from_bytes_unchecked(status_byte, data_byte_1, data_byte_2)
    }

    /// A system real-time message of `kind`; its data bytes are zero.
    pub fn system_real_time_message(kind: MidiMessageKind) -> (r: RawMidiMessage)
        requires
            super_kind_of(kind) == MidiMessageSuperKind::SystemRealTime,
        ensures
            r.status_byte_spec() == kind_value(kind),
            kind_of_status_byte(r.status_byte_spec()) == Some(kind),
            r.data_byte_1_spec() == 0,
            r.data_byte_2_spec() == 0,
    {
        proof {
            lemma_channel_status_byte(kind, 0);
        }
        RawMidiMessage::from_bytes_unchecked(kind.into_u8(), U7::new(0), U7::new(0))
    }

    /// The message with the same bytes as `msg`.
    pub fn from_structured(msg: &StructuredMidiMessage) -> (r: RawMidiMessage)
        ensures
            r.status_byte_spec() == msg.status_byte_spec(),
            r.data_byte_1_spec() == msg.data_byte_1_spec(),
            r.data_byte_2_spec() == msg.data_byte_2_spec(),
    {
        RawMidiMessage::from_bytes_unchecked(
            msg.get_status_byte(),
            msg.get_data_byte_1(),
            msg.get_data_byte_2(),
        )
    }

    pub fn note_off(channel: Channel, key_number: KeyNumber, velocity: U7) -> (r: RawMidiMessage)
        ensures
            r.status_byte_spec() == 0x80 + channel@,
            r.data_byte_1_spec() == key_number@,
            r.data_byte_2_spec() == velocity@,
    {
        RawMidiMessage::channel_message(
            MidiMessageKind::NoteOff,
            channel,
            key_number.to_u7(),
            velocity,
        )
    }

    pub fn note_on(channel: Channel, key_number: KeyNumber, velocity: U7) -> (r: RawMidiMessage)
        ensures
            r.status_byte_spec() == 0x90 + channel@,
            r.data_byte_1_spec() == key_number@,
            r.data_byte_2_spec() == velocity@,
    {
        RawMidiMessage::channel_message(
            MidiMessageKind::NoteOn,
            channel,
            key_number.to_u7(),
            velocity,
        )
    }

    pub fn polyphonic_key_pressure(
        channel: Channel,
        key_number: KeyNumber,
        pressure_amount: U7,
    ) -> (r: RawMidiMessage)
        ensures
            r.status_byte_spec() == 0xa0 + channel@,
            r.data_byte_1_spec() == key_number@,
            r.data_byte_2_spec() == pressure_amount@,
    {
        RawMidiMessage::channel_message(
            MidiMessageKind::PolyphonicKeyPressure,
            channel,
            key_number.to_u7(),
            pressure_amount,
        )
    }

    pub fn control_change(
        channel: Channel,
        controller_number: ControllerNumber,
        control_value: U7,
    ) -> (r: RawMidiMessage)
        ensures
            r.status_byte_spec() == 0xb0 + channel@,
            r.data_byte_1_spec() == controller_number@,
            r.data_byte_2_spec() == control_value@,
    {
        RawMidiMessage::channel_message(
            MidiMessageKind::ControlChange,
            channel,
            controller_number.to_u7(),
            control_value,
        )
    }

    pub fn program_change(channel: Channel, program_number: ProgramNumber) -> (r: RawMidiMessage)
        ensures
            r.status_byte_spec() == 0xc0 + channel@,
            r.data_byte_1_spec() == program_number@,
            r.data_byte_2_spec() == 0,
    {
        RawMidiMessage::channel_message(
            MidiMessageKind::ProgramChange,
            channel,
            program_number.to_u7(),
            U7::new(0),
        )
    }

    pub fn channel_pressure(channel: Channel, pressure_amount: U7) -> (r: RawMidiMessage)
        ensures
            r.status_byte_spec() == 0xd0 + channel@,
            r.data_byte_1_spec() == pressure_amount@,
            r.data_byte_2_spec() == 0,
    {
        RawMidiMessage::channel_message(
            MidiMessageKind::ChannelPressure,
            channel,
            pressure_amount,
            U7::new(0),
        )
    }

    /// A pitch bend change message: the first data byte holds the least significant 7 bits of
    /// the value, the second data byte the most significant 7 bits.
    pub fn pitch_bend_change(channel: Channel, pitch_bend_value: U14) -> (r: RawMidiMessage)
        ensures
            r.status_byte_spec() == 0xe0 + channel@,
            r.data_byte_1_spec() == pitch_bend_value@ % 128,
            r.data_byte_2_spec() == pitch_bend_value@ / 128,
    {
        RawMidiMessage::channel_message(
            MidiMessageKind::PitchBendChange,
            channel,
            extract_low_7_bit_value_from_14_bit_value(pitch_bend_value),
            extract_high_7_bit_value_from_14_bit_value(pitch_bend_value),
        )
    }

    pub fn timing_clock() -> (r: RawMidiMessage)
        ensures
            r.status_byte_spec() == 0xf8,
            r.data_byte_1_spec() == 0,
            r.data_byte_2_spec() == 0,
    {
        RawMidiMessage::system_real_time_message(MidiMessageKind::TimingClock)
    }

    pub fn start() -> (r: RawMidiMessage)
        ensures
            r.status_byte_spec() == 0xfa,
            r.data_byte_1_spec() == 0,
            r.data_byte_2_spec() == 0,
    {
        RawMidiMessage::system_real_time_message(MidiMessageKind::Start)
    }

    pub fn continue_message() -> (r: RawMidiMessage)
        ensures
            r.status_byte_spec() == 0xfb,
            r.data_byte_1_spec() == 0,
            r.data_byte_2_spec() == 0,
    {
        RawMidiMessage::system_real_time_message(MidiMessageKind::Continue)
    }

    pub fn stop() -> (r: RawMidiMessage)
        ensures
            r.status_byte_spec() == 0xfc,
            r.data_byte_1_spec() == 0,
            r.data_byte_2_spec() == 0,
    {
        RawMidiMessage::system_real_time_message(MidiMessageKind::Stop)
    }

    pub fn active_sensing() -> (r: RawMidiMessage)
        ensures
            r.status_byte_spec() == 0xfe,
            r.data_byte_1_spec() == 0,
            r.data_byte_2_spec() == 0,
    {
        RawMidiMessage::system_real_time_message(MidiMessageKind::ActiveSensing)
    }

    pub fn system_reset() -> (r: RawMidiMessage)
        ensures
            r.status_byte_spec() == 0xff,
            r.data_byte_1_spec() == 0,
            r.data_byte_2_spec() == 0,
    {
        RawMidiMessage::system_real_time_message(MidiMessageKind::SystemReset)
    }
}

impl MidiMessage for RawMidiMessage {
    closed spec fn status_byte_spec(&self) -> u8 {
        self.status_byte
    }

    closed spec fn data_byte_1_spec(&self) -> u8 {
        self.data_byte_1@
    }

    closed spec fn data_byte_2_spec(&self) -> u8 {
        self.data_byte_2@
    }

    fn get_status_byte(&self) -> (r: u8) {
        proof {
            use_type_invariant(self);
        }
        self.status_byte
    }

    fn get_data_byte_1(&self) -> (r: U7) {
        self.data_byte_1
    }

    fn get_data_byte_2(&self) -> (r: U7) {
        self.data_byte_2
    }
}

} // verus!
