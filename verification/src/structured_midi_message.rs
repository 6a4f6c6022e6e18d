use vstd::prelude::*;
use crate::midi_message::{
    lemma_midi_status_byte_table,
    message_channel, message_control_value, message_controller_number, message_is_note,
    message_is_note_off, message_is_note_on, message_key_number, message_kind,
    message_pitch_bend_value, message_pressure_amount, message_program_number, message_velocity,
    is_channel_kind, is_status_byte, kind_lookup_number,
    kind_of_status_byte, kind_value, lemma_channel_status_byte, value_14_bit,
    build_channel_status_byte, KindFromByteError, MidiMessage, MidiMessageKind,
};
use crate::raw_midi_message::RawMidiMessage;
use crate::types::{Channel, ControllerNumber, KeyNumber, ProgramNumber, U7, U14};
use crate::util::{
    extract_high_7_bit_value_from_14_bit_value, extract_low_7_bit_value_from_14_bit_value,
};

verus! {

broadcast use crate::types::group_value_types;

/// A MIDI message as an enum, each variant holding the values that its kind carries.
#[derive(Clone, Copy, Debug, PartialEq, Eq, Structural, Hash)]
pub enum StructuredMidiMessage {
    NoteOff {
        channel: Channel,
        key_number: KeyNumber,
        velocity: U7,
    },
    NoteOn {
        channel: Channel,
        key_number: KeyNumber,
        velocity: U7,
    },
    PolyphonicKeyPressure {
        channel: Channel,
        key_number: KeyNumber,
        pressure_amount: U7,
    },
    ControlChange {
        channel: Channel,
        controller_number: ControllerNumber,
        control_value: U7,
    },
    ProgramChange {
        channel: Channel,
        program_number: ProgramNumber,
    },
    ChannelPressure {
        channel: Channel,
        pressure_amount: U7,
    },
    PitchBendChange {
        channel: Channel,
        pitch_bend_value: U14,
    },
    SystemExclusiveStart,
    MidiTimeCodeQuarterFrame,
    SongPositionPointer,
    SongSelect,
    TuneRequest,
    SystemExclusiveEnd,
    TimingClock,
    Start,
    Continue,
    Stop,
    ActiveSensing,
    SystemReset,
}

impl StructuredMidiMessage {
    /// The kind of this message.
    pub open spec fn kind_spec(self) -> MidiMessageKind {
        match self {
            StructuredMidiMessage::NoteOff { .. } => MidiMessageKind::NoteOff,
            StructuredMidiMessage::NoteOn { .. } => MidiMessageKind::NoteOn,
            StructuredMidiMessage::PolyphonicKeyPressure { .. } => MidiMessageKind::PolyphonicKeyPressure,
            StructuredMidiMessage::ControlChange { .. } => MidiMessageKind::ControlChange,
            StructuredMidiMessage::ProgramChange { .. } => MidiMessageKind::ProgramChange,
            StructuredMidiMessage::ChannelPressure { .. } => MidiMessageKind::ChannelPressure,
            StructuredMidiMessage::PitchBendChange { .. } => MidiMessageKind::PitchBendChange,
            StructuredMidiMessage::SystemExclusiveStart => MidiMessageKind::SystemExclusiveStart,
            StructuredMidiMessage::MidiTimeCodeQuarterFrame => MidiMessageKind::MidiTimeCodeQuarterFrame,
            StructuredMidiMessage::SongPositionPointer => MidiMessageKind::SongPositionPointer,
            StructuredMidiMessage::SongSelect => MidiMessageKind::SongSelect,
            StructuredMidiMessage::TuneRequest => MidiMessageKind::TuneRequest,
            StructuredMidiMessage::SystemExclusiveEnd => MidiMessageKind::SystemExclusiveEnd,
            StructuredMidiMessage::TimingClock => MidiMessageKind::TimingClock,
            StructuredMidiMessage::Start => MidiMessageKind::Start,
            StructuredMidiMessage::Continue => MidiMessageKind::Continue,
            StructuredMidiMessage::Stop => MidiMessageKind::Stop,
            StructuredMidiMessage::ActiveSensing => MidiMessageKind::ActiveSensing,
            StructuredMidiMessage::SystemReset => MidiMessageKind::SystemReset,
        }
    }

    /// Every value that this message holds is in the range of its type.
    pub open spec fn wf(self) -> bool {
        match self {
            StructuredMidiMessage::NoteOff { channel, key_number, velocity } => channel@ < 16 && key_number@ < 128 && velocity@ < 128,
            StructuredMidiMessage::NoteOn { channel, key_number, velocity } => channel@ < 16 && key_number@ < 128 && velocity@ < 128,
            StructuredMidiMessage::PolyphonicKeyPressure { channel, key_number, pressure_amount } => channel@ < 16 && key_number@ < 128 && pressure_amount@ < 128,
            StructuredMidiMessage::ControlChange { channel, controller_number, control_value } => channel@ < 16 && controller_number@ < 128 && control_value@ < 128,
            StructuredMidiMessage::ProgramChange { channel, program_number } => channel@ < 16 && program_number@ < 128,
            StructuredMidiMessage::ChannelPressure { channel, pressure_amount } => channel@ < 16 && pressure_amount@ < 128,
            StructuredMidiMessage::PitchBendChange { channel, pitch_bend_value } => channel@ < 16 && pitch_bend_value@ < 16384,
            _ => true,
        }
    }

    /// The kind of this message.
    fn get_structured_kind(&self) -> (r: MidiMessageKind)
        ensures
            r == self.kind_spec(),
    {
        match self {
            StructuredMidiMessage::NoteOff { .. } => MidiMessageKind::NoteOff,
            StructuredMidiMessage::NoteOn { .. } => MidiMessageKind::NoteOn,
            StructuredMidiMessage::PolyphonicKeyPressure { .. } => MidiMessageKind::PolyphonicKeyPressure,
            StructuredMidiMessage::ControlChange { .. } => MidiMessageKind::ControlChange,
            StructuredMidiMessage::ProgramChange { .. } => MidiMessageKind::ProgramChange,
            StructuredMidiMessage::ChannelPressure { .. } => MidiMessageKind::ChannelPressure,
            StructuredMidiMessage::PitchBendChange { .. } => MidiMessageKind::PitchBendChange,
            StructuredMidiMessage::SystemExclusiveStart => MidiMessageKind::SystemExclusiveStart,
            StructuredMidiMessage::MidiTimeCodeQuarterFrame => MidiMessageKind::MidiTimeCodeQuarterFrame,
            StructuredMidiMessage::SongPositionPointer => MidiMessageKind::SongPositionPointer,
            StructuredMidiMessage::SongSelect => MidiMessageKind::SongSelect,
            StructuredMidiMessage::TuneRequest => MidiMessageKind::TuneRequest,
            StructuredMidiMessage::SystemExclusiveEnd => MidiMessageKind::SystemExclusiveEnd,
            StructuredMidiMessage::TimingClock => MidiMessageKind::TimingClock,
            StructuredMidiMessage::Start => MidiMessageKind::Start,
            StructuredMidiMessage::Continue => MidiMessageKind::Continue,
            StructuredMidiMessage::Stop => MidiMessageKind::Stop,
            StructuredMidiMessage::ActiveSensing => MidiMessageKind::ActiveSensing,
            StructuredMidiMessage::SystemReset => MidiMessageKind::SystemReset,
        }
    }

    /// The message that these bytes make up; an error holding the number looked up for the
    /// kind (see [`kind_lookup_number`]) if `status_byte` is no status byte.
    pub fn from_bytes(status_byte: u8, data_byte_1: U7, data_byte_2: U7) -> (r: Result<
        StructuredMidiMessage,
        KindFromByteError,
    >)
        ensures
            match r {
                Ok(m) => is_status_byte(status_byte) && m == structured_from_bytes(
                    status_byte,
                    data_byte_1@,
                    data_byte_2@,
                ),
                Err(e) => !is_status_byte(status_byte) && e.number == kind_lookup_number(
                    status_byte,
                ),
            },
    {
        match RawMidiMessage::from_bytes(status_byte, data_byte_1, data_byte_2) {
            Ok(raw) => Ok(raw.to_structured()),
            Err(e) => Err(e),
        }
    }
}

/// The structured message that a status byte and two data bytes make up. Data bytes that the
/// kind does not use are dropped.
pub open spec fn structured_from_bytes(status_byte: u8, data_byte_1: u8, data_byte_2: u8) -> StructuredMidiMessage {
    let channel = Channel::from_value(status_byte % 16);
    match kind_of_status_byte(status_byte) {
        Some(MidiMessageKind::NoteOff) => StructuredMidiMessage::NoteOff {
            channel,
            key_number: KeyNumber::from_value(data_byte_1),
            velocity: U7::from_value(data_byte_2),
        },
        Some(MidiMessageKind::NoteOn) => StructuredMidiMessage::NoteOn {
            channel,
            key_number: KeyNumber::from_value(data_byte_1),
            velocity: U7::from_value(data_byte_2),
        },
        Some(MidiMessageKind::PolyphonicKeyPressure) => StructuredMidiMessage::PolyphonicKeyPressure {
            channel,
            key_number: KeyNumber::from_value(data_byte_1),
            pressure_amount: U7::from_value(data_byte_2),
        },
        Some(MidiMessageKind::ControlChange) => StructuredMidiMessage::ControlChange {
            channel,
            controller_number: ControllerNumber::from_value(data_byte_1),
            control_value: U7::from_value(data_byte_2),
        },
        Some(MidiMessageKind::ProgramChange) => StructuredMidiMessage::ProgramChange {
            channel,
            program_number: ProgramNumber::from_value(data_byte_1),
        },
        Some(MidiMessageKind::ChannelPressure) => StructuredMidiMessage::ChannelPressure {
            channel,
            pressure_amount: U7::from_value(data_byte_1),
        },
        Some(MidiMessageKind::PitchBendChange) => StructuredMidiMessage::PitchBendChange {
            channel,
            pitch_bend_value: U14::from_value(value_14_bit(data_byte_2, data_byte_1)),
        },
        Some(MidiMessageKind::SystemExclusiveStart) => StructuredMidiMessage::SystemExclusiveStart,
        Some(MidiMessageKind::MidiTimeCodeQuarterFrame) => StructuredMidiMessage::MidiTimeCodeQuarterFrame,
        Some(MidiMessageKind::SongPositionPointer) => StructuredMidiMessage::SongPositionPointer,
        Some(MidiMessageKind::SongSelect) => StructuredMidiMessage::SongSelect,
        Some(MidiMessageKind::TuneRequest) => StructuredMidiMessage::TuneRequest,
        Some(MidiMessageKind::SystemExclusiveEnd) => StructuredMidiMessage::SystemExclusiveEnd,
        Some(MidiMessageKind::TimingClock) => StructuredMidiMessage::TimingClock,
        Some(MidiMessageKind::Start) => StructuredMidiMessage::Start,
        Some(MidiMessageKind::Continue) => StructuredMidiMessage::Continue,
        Some(MidiMessageKind::Stop) => StructuredMidiMessage::Stop,
        Some(MidiMessageKind::ActiveSensing) => StructuredMidiMessage::ActiveSensing,
        Some(MidiMessageKind::SystemReset) => StructuredMidiMessage::SystemReset,
        None => arbitrary(),
    }
}

/// Whether a message of this kind keeps its first data byte in structured form.
pub open spec fn uses_data_byte_1(kind: MidiMessageKind) -> bool {
    is_channel_kind(kind)
}

/// Whether a message of this kind keeps its second data byte in structured form.
pub open spec fn uses_data_byte_2(kind: MidiMessageKind) -> bool {
    is_channel_kind(kind) && kind != MidiMessageKind::ProgramChange && kind
        != MidiMessageKind::ChannelPressure
}

impl MidiMessage for StructuredMidiMessage {
    open spec fn status_byte_spec(&self) -> u8 {
        match *self {
            StructuredMidiMessage::NoteOff { channel, .. } => (kind_value(MidiMessageKind::NoteOff) + channel@) as u8,
            StructuredMidiMessage::NoteOn { channel, .. } => (kind_value(MidiMessageKind::NoteOn) + channel@) as u8,
            StructuredMidiMessage::PolyphonicKeyPressure { channel, .. } => (kind_value(MidiMessageKind::PolyphonicKeyPressure) + channel@) as u8,
            StructuredMidiMessage::ControlChange { channel, .. } => (kind_value(MidiMessageKind::ControlChange) + channel@) as u8,
            StructuredMidiMessage::ProgramChange { channel, .. } => (kind_value(MidiMessageKind::ProgramChange) + channel@) as u8,
            StructuredMidiMessage::ChannelPressure { channel, .. } => (kind_value(MidiMessageKind::ChannelPressure) + channel@) as u8,
            StructuredMidiMessage::PitchBendChange { channel, .. } => (kind_value(MidiMessageKind::PitchBendChange) + channel@) as u8,
            _ => kind_value(self.kind_spec()),
        }
    }

    open spec fn data_byte_1_spec(&self) -> u8 {
        match *self {
            StructuredMidiMessage::NoteOff { key_number, .. } => key_number@,
            StructuredMidiMessage::NoteOn { key_number, .. } => key_number@,
            StructuredMidiMessage::PolyphonicKeyPressure { key_number, .. } => key_number@,
            StructuredMidiMessage::ControlChange { controller_number, .. } => controller_number@,
            StructuredMidiMessage::ProgramChange { program_number, .. } => program_number@,
            StructuredMidiMessage::ChannelPressure { pressure_amount, .. } => pressure_amount@,
            StructuredMidiMessage::PitchBendChange { pitch_bend_value, .. } => (pitch_bend_value@
                % 128) as u8,
            _ => 0,
        }
    }

    open spec fn data_byte_2_spec(&self) -> u8 {
        match *self {
            StructuredMidiMessage::NoteOff { velocity, .. } => velocity@,
            StructuredMidiMessage::NoteOn { velocity, .. } => velocity@,
            StructuredMidiMessage::PolyphonicKeyPressure { pressure_amount, .. } => pressure_amount@,
            StructuredMidiMessage::ControlChange { control_value, .. } => control_value@,
            StructuredMidiMessage::PitchBendChange { pitch_bend_value, .. } => (pitch_bend_value@
                / 128) as u8,
            _ => 0,
        }
    }

    fn get_status_byte(&self) -> (r: u8) {
        match self {
            StructuredMidiMessage::NoteOff { channel, .. } => build_channel_status_byte(
                MidiMessageKind::NoteOff,
                *channel,
            ),
            StructuredMidiMessage::NoteOn { channel, .. } => build_channel_status_byte(
                MidiMessageKind::NoteOn,
                *channel,
            ),
            StructuredMidiMessage::PolyphonicKeyPressure { channel, .. } => build_channel_status_byte(
                MidiMessageKind::PolyphonicKeyPressure,
                *channel,
            ),
            StructuredMidiMessage::ControlChange { channel, .. } => build_channel_status_byte(
                MidiMessageKind::ControlChange,
                *channel,
            ),
            StructuredMidiMessage::ProgramChange { channel, .. } => build_channel_status_byte(
                MidiMessageKind::ProgramChange,
                *channel,
            ),
            StructuredMidiMessage::ChannelPressure { channel, .. } => build_channel_status_byte(
                MidiMessageKind::ChannelPressure,
                *channel,
            ),
            StructuredMidiMessage::PitchBendChange { channel, .. } => build_channel_status_byte(
                MidiMessageKind::PitchBendChange,
                *channel,
            ),
            _ => {
                let kind = self.get_structured_kind();
                proof {
                    lemma_channel_status_byte(kind, 0);
                }
                kind.into_u8()
            },
        }
    }

    fn get_data_byte_1(&self) -> (r: U7) {
        match self {
            StructuredMidiMessage::NoteOff { key_number, .. } => key_number.to_u7(),
            StructuredMidiMessage::NoteOn { key_number, .. } => key_number.to_u7(),
            StructuredMidiMessage::PolyphonicKeyPressure { key_number, .. } => key_number.to_u7(),
            StructuredMidiMessage::ControlChange { controller_number, .. } => controller_number.to_u7(),
            StructuredMidiMessage::ProgramChange { program_number, .. } => program_number.to_u7(),
            StructuredMidiMessage::ChannelPressure { pressure_amount, .. } => *pressure_amount,
            StructuredMidiMessage::PitchBendChange { pitch_bend_value, .. } =>
                extract_low_7_bit_value_from_14_bit_value(*pitch_bend_value),
            _ => U7::new(0),
        }
    }

    fn get_data_byte_2(&self) -> (r: U7) {
        match self {
            StructuredMidiMessage::NoteOff { velocity, .. } => *velocity,
            StructuredMidiMessage::NoteOn { velocity, .. } => *velocity,
            StructuredMidiMessage::PolyphonicKeyPressure { pressure_amount, .. } => *pressure_amount,
            StructuredMidiMessage::ControlChange { control_value, .. } => *control_value,
            StructuredMidiMessage::PitchBendChange { pitch_bend_value, .. } =>
                extract_high_7_bit_value_from_14_bit_value(*pitch_bend_value),
            _ => U7::new(0),
        }
    }
}

/// Turning a structured message into its bytes and reading them back gives the same message;
/// its bytes form a valid message.
pub proof fn lemma_structured_bytes_roundtrip(m: StructuredMidiMessage)
    requires
        m.wf(),
    ensures
        is_status_byte(m.status_byte_spec()),
        kind_of_status_byte(m.status_byte_spec()) == Some(m.kind_spec()),
        m.data_byte_1_spec() < 128,
        m.data_byte_2_spec() < 128,
        structured_from_bytes(m.status_byte_spec(), m.data_byte_1_spec(), m.data_byte_2_spec())
            == m,
{

}

/// Reading a valid message from its bytes and turning it back into bytes gives the same status
/// byte, and the same data bytes where the kind uses them (zero where it does not).
pub proof fn lemma_bytes_structured_roundtrip(status_byte: u8, data_byte_1: u8, data_byte_2: u8)
    requires
        is_status_byte(status_byte),
        data_byte_1 < 128,
        data_byte_2 < 128,
    ensures
        ({
            let m = structured_from_bytes(status_byte, data_byte_1, data_byte_2);
            let kind = kind_of_status_byte(status_byte)->0;
            &&& m.wf()
            &&& m.kind_spec() == kind
            &&& m.status_byte_spec() == status_byte
            &&& m.data_byte_1_spec() == (if uses_data_byte_1(kind) { data_byte_1 } else { 0 })
            &&& m.data_byte_2_spec() == (if uses_data_byte_2(kind) { data_byte_2 } else { 0 })
        }),
{

}

/// The structured form of a valid message answers every query as the message itself does:
/// the same kind, channel, key number, velocity, controller number, control value, program
/// number, pressure amount, pitch bend value and note classification.
pub proof fn lemma_structured_answers_like_bytes(status_byte: u8, data_byte_1: u8, data_byte_2: u8)
    requires
        is_status_byte(status_byte),
        data_byte_1 < 128,
        data_byte_2 < 128,
    ensures
        ({
            let m = structured_from_bytes(status_byte, data_byte_1, data_byte_2);
            let (s, d1, d2) = (m.status_byte_spec(), m.data_byte_1_spec(), m.data_byte_2_spec());
            &&& message_kind(s) == message_kind(status_byte)
            &&& message_channel(s) == message_channel(status_byte)
            &&& message_key_number(s, d1) == message_key_number(status_byte, data_byte_1)
            &&& message_velocity(s, d2) == message_velocity(status_byte, data_byte_2)
            &&& message_controller_number(s, d1) == message_controller_number(
                status_byte,
                data_byte_1,
            )
            &&& message_control_value(s, d2) == message_control_value(status_byte, data_byte_2)
            &&& message_program_number(s, d1) == message_program_number(status_byte, data_byte_1)
            &&& message_pressure_amount(s, d1, d2) == message_pressure_amount(
                status_byte,
                data_byte_1,
                data_byte_2,
            )
            &&& message_pitch_bend_value(s, d1, d2) == message_pitch_bend_value(
                status_byte,
                data_byte_1,
                data_byte_2,
            )
            &&& message_is_note(s) == message_is_note(status_byte)
            &&& message_is_note_on(s, d2) == message_is_note_on(status_byte, data_byte_2)
            &&& message_is_note_off(s, d2) == message_is_note_off(status_byte, data_byte_2)
        }),
{
    lemma_bytes_structured_roundtrip(status_byte, data_byte_1, data_byte_2);
}

/// Decoding names the variant after the MIDI meaning of the status byte, and fills its fields
/// from the bytes: for every valid status byte and all data bytes below 128, the decoded message
/// is the variant listed for the byte's range or value, its channel is the low nibble of the
/// status byte, and its values are the data bytes that carry them.
pub proof fn lemma_decoded_variant_by_status_byte(status_byte: u8, data_byte_1: u8, data_byte_2: u8)
    requires
        is_status_byte(status_byte),
        data_byte_1 < 128,
        data_byte_2 < 128,
    ensures
        ({
            let m = structured_from_bytes(status_byte, data_byte_1, data_byte_2);
            &&& (m is NoteOff <==> 0x80 <= status_byte < 0x90)
            &&& (m is NoteOn <==> 0x90 <= status_byte < 0xa0)
            &&& (m is PolyphonicKeyPressure <==> 0xa0 <= status_byte < 0xb0)
            &&& (m is ControlChange <==> 0xb0 <= status_byte < 0xc0)
            &&& (m is ProgramChange <==> 0xc0 <= status_byte < 0xd0)
            &&& (m is ChannelPressure <==> 0xd0 <= status_byte < 0xe0)
            &&& (m is PitchBendChange <==> 0xe0 <= status_byte < 0xf0)
            &&& (m is SystemExclusiveStart <==> status_byte == 0xf0)
            &&& (m is MidiTimeCodeQuarterFrame <==> status_byte == 0xf1)
            &&& (m is SongPositionPointer <==> status_byte == 0xf2)
            &&& (m is SongSelect <==> status_byte == 0xf3)
            &&& (m is TuneRequest <==> status_byte == 0xf6)
            &&& (m is SystemExclusiveEnd <==> status_byte == 0xf7)
            &&& (m is TimingClock <==> status_byte == 0xf8)
            &&& (m is Start <==> status_byte == 0xfa)
            &&& (m is Continue <==> status_byte == 0xfb)
            &&& (m is Stop <==> status_byte == 0xfc)
            &&& (m is ActiveSensing <==> status_byte == 0xfe)
            &&& (m is SystemReset <==> status_byte == 0xff)
            &&& (m matches StructuredMidiMessage::NoteOff { channel, key_number, velocity } ==> channel@
                == status_byte % 16 && key_number@ == data_byte_1 && velocity@ == data_byte_2)
            &&& (m matches StructuredMidiMessage::NoteOn { channel, key_number, velocity } ==> channel@
                == status_byte % 16 && key_number@ == data_byte_1 && velocity@ == data_byte_2)
            &&& (m matches StructuredMidiMessage::PolyphonicKeyPressure {
                channel,
                key_number,
                pressure_amount,
            } ==> channel@ == status_byte % 16 && key_number@ == data_byte_1 && pressure_amount@
                == data_byte_2)
            &&& (m matches StructuredMidiMessage::ControlChange {
                channel,
                controller_number,
                control_value,
            } ==> channel@ == status_byte % 16 && controller_number@ == data_byte_1
                && control_value@ == data_byte_2)
            &&& (m matches StructuredMidiMessage::ProgramChange { channel, program_number }
                ==> channel@ == status_byte % 16 && program_number@ == data_byte_1)
            &&& (m matches StructuredMidiMessage::ChannelPressure { channel, pressure_amount }
                ==> channel@ == status_byte % 16 && pressure_amount@ == data_byte_1)
            &&& (m matches StructuredMidiMessage::PitchBendChange { channel, pitch_bend_value }
                ==> channel@ == status_byte % 16 && pitch_bend_value@ == data_byte_2 * 128
                + data_byte_1)
        }),
{
    lemma_midi_status_byte_table();
}

/// Encoding gives each variant the MIDI status byte of its meaning: a channel variant the
/// status byte of its kind on its channel, a system variant its fixed status byte; and it puts
/// each value into the data byte that carries it.
pub proof fn lemma_variant_bytes(m: StructuredMidiMessage)
    requires
        m.wf(),
    ensures
        m is SystemExclusiveStart ==> m.status_byte_spec() == 0xf0,
        m is MidiTimeCodeQuarterFrame ==> m.status_byte_spec() == 0xf1,
        m is SongPositionPointer ==> m.status_byte_spec() == 0xf2,
        m is SongSelect ==> m.status_byte_spec() == 0xf3,
        m is TuneRequest ==> m.status_byte_spec() == 0xf6,
        m is SystemExclusiveEnd ==> m.status_byte_spec() == 0xf7,
        m is TimingClock ==> m.status_byte_spec() == 0xf8,
        m is Start ==> m.status_byte_spec() == 0xfa,
        m is Continue ==> m.status_byte_spec() == 0xfb,
        m is Stop ==> m.status_byte_spec() == 0xfc,
        m is ActiveSensing ==> m.status_byte_spec() == 0xfe,
        m is SystemReset ==> m.status_byte_spec() == 0xff,
        m matches StructuredMidiMessage::NoteOff { channel, .. } ==> m.status_byte_spec() == 0x80 + channel@,
        m matches StructuredMidiMessage::NoteOn { channel, .. } ==> m.status_byte_spec() == 0x90 + channel@,
        m matches StructuredMidiMessage::PolyphonicKeyPressure { channel, .. } ==> m.status_byte_spec() == 0xa0 + channel@,
        m matches StructuredMidiMessage::ControlChange { channel, .. } ==> m.status_byte_spec() == 0xb0 + channel@,
        m matches StructuredMidiMessage::ProgramChange { channel, .. } ==> m.status_byte_spec() == 0xc0 + channel@,
        m matches StructuredMidiMessage::ChannelPressure { channel, .. } ==> m.status_byte_spec() == 0xd0 + channel@,
        m matches StructuredMidiMessage::PitchBendChange { channel, .. } ==> m.status_byte_spec() == 0xe0 + channel@,
        m matches StructuredMidiMessage::NoteOff { key_number, velocity, .. } ==> m.data_byte_1_spec()
            == key_number@ && m.data_byte_2_spec() == velocity@,
        m matches StructuredMidiMessage::NoteOn { key_number, velocity, .. } ==> m.data_byte_1_spec()
            == key_number@ && m.data_byte_2_spec() == velocity@,
        m matches StructuredMidiMessage::PolyphonicKeyPressure { key_number, pressure_amount, .. }
            ==> m.data_byte_1_spec() == key_number@ && m.data_byte_2_spec() == pressure_amount@,
        m matches StructuredMidiMessage::ControlChange { controller_number, control_value, .. }
            ==> m.data_byte_1_spec() == controller_number@ && m.data_byte_2_spec()
            == control_value@,
        m matches StructuredMidiMessage::ProgramChange { program_number, .. }
            ==> m.data_byte_1_spec() == program_number@ && m.data_byte_2_spec() == 0,
        m matches StructuredMidiMessage::ChannelPressure { pressure_amount, .. }
            ==> m.data_byte_1_spec() == pressure_amount@ && m.data_byte_2_spec() == 0,
        m matches StructuredMidiMessage::PitchBendChange { pitch_bend_value, .. }
            ==> m.data_byte_1_spec() == pitch_bend_value@ % 128 && m.data_byte_2_spec()
            == pitch_bend_value@ / 128,
{
    lemma_midi_status_byte_table();
}

} // verus!
