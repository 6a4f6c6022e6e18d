use vstd::prelude::*;
use crate::types::{Channel, ControllerNumber, KeyNumber, ProgramNumber, U7, U14};
use crate::structured_midi_message::{StructuredMidiMessage, structured_from_bytes};
use crate::util::build_14_bit_value_from_two_7_bit_values;

verus! {

broadcast use crate::types::group_value_types;

/// The most low-level kind of a MIDI message.
#[derive(Clone, Copy, Debug, PartialEq, Eq, Structural, Hash)]
pub enum MidiMessageKind {
    // Channel messages = channel voice messages + channel mode messages
    NoteOff,
    NoteOn,
    PolyphonicKeyPressure,
    ControlChange,
    ProgramChange,
    ChannelPressure,
    PitchBendChange,
    // System exclusive messages
    SystemExclusiveStart,
    // System common messages
    MidiTimeCodeQuarterFrame,
    SongPositionPointer,
    SongSelect,
    TuneRequest,
    SystemExclusiveEnd,
    // System real-time messages
    TimingClock,
    Start,
    Continue,
    Stop,
    ActiveSensing,
    SystemReset,
}

/// A somewhat mid-level kind of a MIDI message.
/// Channel voice and channel mode messages are not told apart here, because the difference does
/// not depend on the kind alone (channel mode messages are particular control change messages).
#[derive(Clone, Copy, Debug, PartialEq, Eq, Structural, Hash)]
pub enum MidiMessageSuperKind {
    Channel,
    SystemCommon,
    SystemRealTime,
    SystemExclusive,
}

/// At the highest level MIDI messages are put into two categories.
#[derive(Clone, Copy, Debug, PartialEq, Eq, Structural, Hash)]
pub enum MidiMessageMainCategory {
    Channel,
    System,
}

/// The number that is refused when a byte names no message kind.
#[derive(Clone, Copy, Debug, PartialEq, Eq, Structural, Hash)]
pub struct KindFromByteError {
    pub number: u8,
}

/// The number that stands for a kind: for a channel message kind the status byte on channel 0,
/// for a system message kind the whole status byte.
pub open spec fn kind_value(kind: MidiMessageKind) -> u8 {
    match kind {
        MidiMessageKind::NoteOff => 0x80,
        MidiMessageKind::NoteOn => 0x90,
        MidiMessageKind::PolyphonicKeyPressure => 0xa0,
        MidiMessageKind::ControlChange => 0xb0,
        MidiMessageKind::ProgramChange => 0xc0,
        MidiMessageKind::ChannelPressure => 0xd0,
        MidiMessageKind::PitchBendChange => 0xe0,
        MidiMessageKind::SystemExclusiveStart => 0xf0,
        MidiMessageKind::MidiTimeCodeQuarterFrame => 0xf1,
        MidiMessageKind::SongPositionPointer => 0xf2,
        MidiMessageKind::SongSelect => 0xf3,
        MidiMessageKind::TuneRequest => 0xf6,
        MidiMessageKind::SystemExclusiveEnd => 0xf7,
        MidiMessageKind::TimingClock => 0xf8,
        MidiMessageKind::Start => 0xfa,
        MidiMessageKind::Continue => 0xfb,
        MidiMessageKind::Stop => 0xfc,
        MidiMessageKind::ActiveSensing => 0xfe,
        MidiMessageKind::SystemReset => 0xff,
    }
}

/// The kind whose number is `v`, if there is one.
pub open spec fn kind_of_value(v: u8) -> Option<MidiMessageKind> {
    if v == 0x80 {
        Some(MidiMessageKind::NoteOff)
    } else if v == 0x90 {
        Some(MidiMessageKind::NoteOn)
    } else if v == 0xa0 {
        Some(MidiMessageKind::PolyphonicKeyPressure)
    } else if v == 0xb0 {
        Some(MidiMessageKind::ControlChange)
    } else if v == 0xc0 {
        Some(MidiMessageKind::ProgramChange)
    } else if v == 0xd0 {
        Some(MidiMessageKind::ChannelPressure)
    } else if v == 0xe0 {
        Some(MidiMessageKind::PitchBendChange)
    } else if v == 0xf0 {
        Some(MidiMessageKind::SystemExclusiveStart)
    } else if v == 0xf1 {
        Some(MidiMessageKind::MidiTimeCodeQuarterFrame)
    } else if v == 0xf2 {
        Some(MidiMessageKind::SongPositionPointer)
    } else if v == 0xf3 {
        Some(MidiMessageKind::SongSelect)
    } else if v == 0xf6 {
        Some(MidiMessageKind::TuneRequest)
    } else if v == 0xf7 {
        Some(MidiMessageKind::SystemExclusiveEnd)
    } else if v == 0xf8 {
        Some(MidiMessageKind::TimingClock)
    } else if v == 0xfa {
        Some(MidiMessageKind::Start)
    } else if v == 0xfb {
        Some(MidiMessageKind::Continue)
    } else if v == 0xfc {
        Some(MidiMessageKind::Stop)
    } else if v == 0xfe {
        Some(MidiMessageKind::ActiveSensing)
    } else if v == 0xff {
        Some(MidiMessageKind::SystemReset)
    } else {
        None
    }
}

/// The number looked up to find the kind of a status byte: the whole byte for a system
/// message (high nibble 0xf), else the high nibble alone, the low nibble being the channel.
pub open spec fn kind_lookup_number(status_byte: u8) -> u8 {
    if status_byte >= 0xf0 {
        status_byte
    } else {
        (status_byte / 16 * 16) as u8
    }
}

/// The kind of message that a status byte opens, if it opens one.
pub open spec fn kind_of_status_byte(status_byte: u8) -> Option<MidiMessageKind> {
    kind_of_value(kind_lookup_number(status_byte))
}

/// Whether `b` is the status byte of some MIDI message.
pub open spec fn is_status_byte(b: u8) -> bool {
    kind_of_status_byte(b) is Some
}

/// The super kind of a kind: channel messages below 0xf0, system exclusive at 0xf0, system
/// common from 0xf1 to 0xf7, system real-time from 0xf8 on.
pub open spec fn super_kind_of(kind: MidiMessageKind) -> MidiMessageSuperKind {
    let v = kind_value(kind);
    if v < 0xf0 {
        MidiMessageSuperKind::Channel
    } else if v == 0xf0 {
        MidiMessageSuperKind::SystemExclusive
    } else if v < 0xf8 {
        MidiMessageSuperKind::SystemCommon
    } else {
        MidiMessageSuperKind::SystemRealTime
    }
}

/// The main category of a super kind.
pub open spec fn main_category_of(super_kind: MidiMessageSuperKind) -> MidiMessageMainCategory {
    if super_kind == MidiMessageSuperKind::Channel {
        MidiMessageMainCategory::Channel
    } else {
        MidiMessageMainCategory::System
    }
}

/// Whether a message of this kind carries a channel in the low nibble of its status byte.
pub open spec fn is_channel_kind(kind: MidiMessageKind) -> bool {
    super_kind_of(kind) == MidiMessageSuperKind::Channel
}

impl MidiMessageKind {
    pub fn get_super_kind(&self) -> (r: MidiMessageSuperKind)
        ensures
            r == super_kind_of(*self),
    {
        match self {
            MidiMessageKind::NoteOn
            | MidiMessageKind::NoteOff
            | MidiMessageKind::ChannelPressure
            | MidiMessageKind::PolyphonicKeyPressure
            | MidiMessageKind::PitchBendChange
            | MidiMessageKind::ProgramChange
            | MidiMessageKind::ControlChange => MidiMessageSuperKind::Channel,
            MidiMessageKind::TimingClock
            | MidiMessageKind::Start
            | MidiMessageKind::Continue
            | MidiMessageKind::Stop
            | MidiMessageKind::ActiveSensing
            | MidiMessageKind::SystemReset => MidiMessageSuperKind::SystemRealTime,
            MidiMessageKind::MidiTimeCodeQuarterFrame
            | MidiMessageKind::SongPositionPointer
            | MidiMessageKind::SongSelect
            | MidiMessageKind::TuneRequest
            | MidiMessageKind::SystemExclusiveEnd => MidiMessageSuperKind::SystemCommon,
            MidiMessageKind::SystemExclusiveStart => MidiMessageSuperKind::SystemExclusive,
        }
    }

    /// The number that stands for this kind (see [`kind_value`]).
    pub fn into_u8(self) -> (r: u8)
        ensures
            r == kind_value(self),
    {
        match self {
            MidiMessageKind::NoteOff => 0x80,
            MidiMessageKind::NoteOn => 0x90,
            MidiMessageKind::PolyphonicKeyPressure => 0xa0,
            MidiMessageKind::ControlChange => 0xb0,
            MidiMessageKind::ProgramChange => 0xc0,
            MidiMessageKind::ChannelPressure => 0xd0,
            MidiMessageKind::PitchBendChange => 0xe0,
            MidiMessageKind::SystemExclusiveStart => 0xf0,
            MidiMessageKind::MidiTimeCodeQuarterFrame => 0xf1,
            MidiMessageKind::SongPositionPointer => 0xf2,
            MidiMessageKind::SongSelect => 0xf3,
            MidiMessageKind::TuneRequest => 0xf6,
            MidiMessageKind::SystemExclusiveEnd => 0xf7,
            MidiMessageKind::TimingClock => 0xf8,
            MidiMessageKind::Start => 0xfa,
            MidiMessageKind::Continue => 0xfb,
            MidiMessageKind::Stop => 0xfc,
            MidiMessageKind::ActiveSensing => 0xfe,
            MidiMessageKind::SystemReset => 0xff,
        }
    }

    /// The kind whose number is `v`; an error holding `v` if no kind has that number.
    pub fn try_from_u8(v: u8) -> (r: Result<MidiMessageKind, KindFromByteError>)
        ensures
            match r {
                Ok(kind) => kind_of_value(v) == Some(kind),
                Err(e) => kind_of_value(v) is None && e.number == v,
            },
    {
        match v {
            0x80 => Ok(MidiMessageKind::NoteOff),
            0x90 => Ok(MidiMessageKind::NoteOn),
            0xa0 => Ok(MidiMessageKind::PolyphonicKeyPressure),
            0xb0 => Ok(MidiMessageKind::ControlChange),
            0xc0 => Ok(MidiMessageKind::ProgramChange),
            0xd0 => Ok(MidiMessageKind::ChannelPressure),
            0xe0 => Ok(MidiMessageKind::PitchBendChange),
            0xf0 => Ok(MidiMessageKind::SystemExclusiveStart),
            0xf1 => Ok(MidiMessageKind::MidiTimeCodeQuarterFrame),
            0xf2 => Ok(MidiMessageKind::SongPositionPointer),
            0xf3 => Ok(MidiMessageKind::SongSelect),
            0xf6 => Ok(MidiMessageKind::TuneRequest),
            0xf7 => Ok(MidiMessageKind::SystemExclusiveEnd),
            0xf8 => Ok(MidiMessageKind::TimingClock),
            0xfa => Ok(MidiMessageKind::Start),
            0xfb => Ok(MidiMessageKind::Continue),
            0xfc => Ok(MidiMessageKind::Stop),
            0xfe => Ok(MidiMessageKind::ActiveSensing),
            0xff => Ok(MidiMessageKind::SystemReset),
            _ => Err(KindFromByteError { number: v }),
        }
    }
}

impl MidiMessageSuperKind {
    pub fn get_main_category(&self) -> (r: MidiMessageMainCategory)
        ensures
            r == main_category_of(*self),
    {
        if *self == MidiMessageSuperKind::Channel {
            MidiMessageMainCategory::Channel
        } else {
            MidiMessageMainCategory::System
        }
    }
}

/// The channel that the low nibble of a status byte encodes.
pub fn extract_channel_from_status_byte(byte: u8) -> (r: Channel)
    ensures
        r@ == byte % 16,
{
    let c: u8 = byte & 0x0f;
    assert(c == byte % 16) by (bit_vector)
        requires
            c == byte & 0x0f,
    ;
    Channel::new(c)
}

/// The kind of message that `status_byte` opens; an error holding the number that was looked
/// up (see [`kind_lookup_number`]) if it opens none.
pub fn get_midi_message_kind_from_status_byte(status_byte: u8) -> (r: Result<
    MidiMessageKind,
    KindFromByteError,
>)
    ensures
        match r {
            Ok(kind) => kind_of_status_byte(status_byte) == Some(kind),
            Err(e) => !is_status_byte(status_byte) && e.number == kind_lookup_number(status_byte),
        },
{
    let high_status_byte_nibble = extract_high_nibble_from_byte(status_byte);
    if high_status_byte_nibble == 0xf {
        // System message. The complete status byte makes up the kind.
        MidiMessageKind::try_from_u8(status_byte)
    } else {
        // Channel message. Just the high nibble of the status byte makes up the kind
        // (low nibble encodes channel).
        MidiMessageKind::try_from_u8(build_byte_from_nibbles(high_status_byte_nibble, 0))
    }
}

/// The high nibble of a byte.
pub fn extract_high_nibble_from_byte(byte: u8) -> (r: u8)
    ensures
        r == byte / 16,
{
    let r: u8 = (byte >> 4) & 0x0f;
    assert(r == byte / 16) by (bit_vector)
        requires
            r == (byte >> 4) & 0x0f,
    ;
    r
}

/// The byte made of a high and a low nibble.
pub fn build_byte_from_nibbles(high_nibble: u8, low_nibble: u8) -> (r: u8)
    requires
        high_nibble <= 0xf,
        low_nibble <= 0xf,
    ensures
        r == high_nibble * 16 + low_nibble,
{
    let r: u8 = (high_nibble << 4) | low_nibble;
    assert(r == high_nibble * 16 + low_nibble) by (bit_vector)
        requires
            high_nibble <= 0xf,
            low_nibble <= 0xf,
            r == (high_nibble << 4) | low_nibble,
    ;
    r
}

/// The status byte of a channel message of `kind` on `channel`.
pub fn build_channel_status_byte(kind: MidiMessageKind, channel: Channel) -> (r: u8)
    requires
        is_channel_kind(kind),
    ensures
        r == kind_value(kind) + channel@,
        kind_of_status_byte(r) == Some(kind),
        r % 16 == channel@,
{
    let c = channel.get();
    let high = extract_high_nibble_from_byte(kind.into_u8());
    proof {
        lemma_channel_status_byte(kind, c);
    }
    build_byte_from_nibbles(high, c)
}

/// For every kind, looking its number up gives the kind back, and only its number does.
pub proof fn lemma_kind_value_roundtrip(kind: MidiMessageKind, v: u8)
    ensures
        kind_of_value(kind_value(kind)) == Some(kind),
        kind_of_value(v) == Some(kind) ==> kind_value(kind) == v,
{
}

/// A channel message kind, put on any channel, gives a status byte of that kind whose low
/// nibble is the channel; a system message kind is its own status byte.
pub proof fn lemma_channel_status_byte(kind: MidiMessageKind, channel: u8)
    ensures
        is_channel_kind(kind) && channel < 16 ==> {
            &&& kind_value(kind) % 16 == 0
            &&& kind_of_status_byte((kind_value(kind) + channel) as u8) == Some(kind)
            &&& (kind_value(kind) + channel) % 16 == channel
        },
        !is_channel_kind(kind) ==> kind_of_status_byte(kind_value(kind)) == Some(kind),
{
}

/// The kind of a status byte is a channel kind exactly when the byte is below 0xf0, and a
/// status byte's main category is the channel category exactly then.
pub proof fn lemma_status_byte_category(status_byte: u8)
    requires
        is_status_byte(status_byte),
    ensures
        is_channel_kind(kind_of_status_byte(status_byte)->0) <==> status_byte < 0xf0,
        status_byte >= 0x80,
        main_category_of(super_kind_of(kind_of_status_byte(status_byte)->0))
            == MidiMessageMainCategory::Channel <==> status_byte < 0xf0,
{
}

/// The MIDI status byte numbers of the message kinds: every kind has the number that the MIDI
/// specification gives it, and a status byte on any channel decodes to the kind of its high
/// nibble, while a system status byte decodes to the kind with exactly that number.
pub proof fn lemma_midi_status_byte_table()
    ensures
        kind_value(MidiMessageKind::NoteOff) == 0x80,
        kind_value(MidiMessageKind::NoteOn) == 0x90,
        kind_value(MidiMessageKind::PolyphonicKeyPressure) == 0xa0,
        kind_value(MidiMessageKind::ControlChange) == 0xb0,
        kind_value(MidiMessageKind::ProgramChange) == 0xc0,
        kind_value(MidiMessageKind::ChannelPressure) == 0xd0,
        kind_value(MidiMessageKind::PitchBendChange) == 0xe0,
        kind_value(MidiMessageKind::SystemExclusiveStart) == 0xf0,
        kind_value(MidiMessageKind::MidiTimeCodeQuarterFrame) == 0xf1,
        kind_value(MidiMessageKind::SongPositionPointer) == 0xf2,
        kind_value(MidiMessageKind::SongSelect) == 0xf3,
        kind_value(MidiMessageKind::TuneRequest) == 0xf6,
        kind_value(MidiMessageKind::SystemExclusiveEnd) == 0xf7,
        kind_value(MidiMessageKind::TimingClock) == 0xf8,
        kind_value(MidiMessageKind::Start) == 0xfa,
        kind_value(MidiMessageKind::Continue) == 0xfb,
        kind_value(MidiMessageKind::Stop) == 0xfc,
        kind_value(MidiMessageKind::ActiveSensing) == 0xfe,
        kind_value(MidiMessageKind::SystemReset) == 0xff,
        forall|b: u8| 0x80 <= b < 0x90 ==> #[trigger] kind_of_status_byte(b) == Some(MidiMessageKind::NoteOff),
        forall|b: u8| 0x90 <= b < 0xa0 ==> #[trigger] kind_of_status_byte(b) == Some(MidiMessageKind::NoteOn),
        forall|b: u8| 0xa0 <= b < 0xb0 ==> #[trigger] kind_of_status_byte(b) == Some(MidiMessageKind::PolyphonicKeyPressure),
        forall|b: u8| 0xb0 <= b < 0xc0 ==> #[trigger] kind_of_status_byte(b) == Some(MidiMessageKind::ControlChange),
        forall|b: u8| 0xc0 <= b < 0xd0 ==> #[trigger] kind_of_status_byte(b) == Some(MidiMessageKind::ProgramChange),
        forall|b: u8| 0xd0 <= b < 0xe0 ==> #[trigger] kind_of_status_byte(b) == Some(MidiMessageKind::ChannelPressure),
        forall|b: u8| 0xe0 <= b < 0xf0 ==> #[trigger] kind_of_status_byte(b) == Some(MidiMessageKind::PitchBendChange),
        kind_of_status_byte(0xf0) == Some(MidiMessageKind::SystemExclusiveStart),
        kind_of_status_byte(0xf1) == Some(MidiMessageKind::MidiTimeCodeQuarterFrame),
        kind_of_status_byte(0xf2) == Some(MidiMessageKind::SongPositionPointer),
        kind_of_status_byte(0xf3) == Some(MidiMessageKind::SongSelect),
        kind_of_status_byte(0xf6) == Some(MidiMessageKind::TuneRequest),
        kind_of_status_byte(0xf7) == Some(MidiMessageKind::SystemExclusiveEnd),
        kind_of_status_byte(0xf8) == Some(MidiMessageKind::TimingClock),
        kind_of_status_byte(0xfa) == Some(MidiMessageKind::Start),
        kind_of_status_byte(0xfb) == Some(MidiMessageKind::Continue),
        kind_of_status_byte(0xfc) == Some(MidiMessageKind::Stop),
        kind_of_status_byte(0xfe) == Some(MidiMessageKind::ActiveSensing),
        kind_of_status_byte(0xff) == Some(MidiMessageKind::SystemReset),
        forall|b: u8| b < 0x80 ==> #[trigger] kind_of_status_byte(b) is None,
        kind_of_status_byte(0xf4) is None,
        kind_of_status_byte(0xf5) is None,
        kind_of_status_byte(0xf9) is None,
        kind_of_status_byte(0xfd) is None,
        forall|b: u8| b >= 0xf0 ==> #[trigger] kind_lookup_number(b) == b,
        forall|b: u8|
            b < 0xf0 ==> #[trigger] kind_lookup_number(b) % 16 == 0 && kind_lookup_number(b) <= b
                < kind_lookup_number(b) + 16,
{
}

/// The super kind and main category of every kind, by its MIDI status byte number: channel
/// messages below 0xf0, system exclusive at 0xf0, system common from 0xf1 to 0xf7 and system
/// real-time from 0xf8; only channel messages fall in the channel main category.
pub proof fn lemma_super_kind_by_status_byte(kind: MidiMessageKind)
    ensures
        kind_value(kind) < 0xf0 <==> super_kind_of(kind) == MidiMessageSuperKind::Channel,
        kind_value(kind) == 0xf0 <==> super_kind_of(kind) == MidiMessageSuperKind::SystemExclusive,
        0xf1 <= kind_value(kind) <= 0xf7 <==> super_kind_of(kind)
            == MidiMessageSuperKind::SystemCommon,
        0xf8 <= kind_value(kind) <==> super_kind_of(kind) == MidiMessageSuperKind::SystemRealTime,
        kind_value(kind) < 0xf0 <==> main_category_of(super_kind_of(kind))
            == MidiMessageMainCategory::Channel,
        kind_value(kind) >= 0xf0 <==> main_category_of(super_kind_of(kind))
            == MidiMessageMainCategory::System,
        super_kind_of(MidiMessageKind::NoteOff) == MidiMessageSuperKind::Channel,
        super_kind_of(MidiMessageKind::NoteOn) == MidiMessageSuperKind::Channel,
        super_kind_of(MidiMessageKind::PolyphonicKeyPressure) == MidiMessageSuperKind::Channel,
        super_kind_of(MidiMessageKind::ControlChange) == MidiMessageSuperKind::Channel,
        super_kind_of(MidiMessageKind::ProgramChange) == MidiMessageSuperKind::Channel,
        super_kind_of(MidiMessageKind::ChannelPressure) == MidiMessageSuperKind::Channel,
        super_kind_of(MidiMessageKind::PitchBendChange) == MidiMessageSuperKind::Channel,
        super_kind_of(MidiMessageKind::SystemExclusiveStart) == MidiMessageSuperKind::SystemExclusive,
        super_kind_of(MidiMessageKind::MidiTimeCodeQuarterFrame) == MidiMessageSuperKind::SystemCommon,
        super_kind_of(MidiMessageKind::SongPositionPointer) == MidiMessageSuperKind::SystemCommon,
        super_kind_of(MidiMessageKind::SongSelect) == MidiMessageSuperKind::SystemCommon,
        super_kind_of(MidiMessageKind::TuneRequest) == MidiMessageSuperKind::SystemCommon,
        super_kind_of(MidiMessageKind::SystemExclusiveEnd) == MidiMessageSuperKind::SystemCommon,
        super_kind_of(MidiMessageKind::TimingClock) == MidiMessageSuperKind::SystemRealTime,
        super_kind_of(MidiMessageKind::Start) == MidiMessageSuperKind::SystemRealTime,
        super_kind_of(MidiMessageKind::Continue) == MidiMessageSuperKind::SystemRealTime,
        super_kind_of(MidiMessageKind::Stop) == MidiMessageSuperKind::SystemRealTime,
        super_kind_of(MidiMessageKind::ActiveSensing) == MidiMessageSuperKind::SystemRealTime,
        super_kind_of(MidiMessageKind::SystemReset) == MidiMessageSuperKind::SystemRealTime,
{
    lemma_midi_status_byte_table();
}

/// The main category of a kind is the channel category exactly when its super kind is the
/// channel super kind.
pub proof fn lemma_main_category_of_kind(kind: MidiMessageKind)
    ensures
        (main_category_of(super_kind_of(kind)) == MidiMessageMainCategory::Channel)
            <==> (super_kind_of(kind) == MidiMessageSuperKind::Channel),
        (main_category_of(super_kind_of(kind)) == MidiMessageMainCategory::System)
            <==> (super_kind_of(kind) != MidiMessageSuperKind::Channel),
{
}

/// The kind of the message that opens with `status_byte` (meaningful for status bytes only).
pub open spec fn message_kind(status_byte: u8) -> MidiMessageKind {
    kind_of_status_byte(status_byte)->0
}

/// Whether a message with these bytes is a note-on message with a velocity above zero.
pub open spec fn message_is_note_on(status_byte: u8, data_byte_2: u8) -> bool {
    message_kind(status_byte) == MidiMessageKind::NoteOn && data_byte_2 > 0
}

/// Whether a message with these bytes is a note-off message or a note-on message with
/// velocity zero.
pub open spec fn message_is_note_off(status_byte: u8, data_byte_2: u8) -> bool {
    ||| message_kind(status_byte) == MidiMessageKind::NoteOff
    ||| message_kind(status_byte) == MidiMessageKind::NoteOn && data_byte_2 == 0
}

/// Whether a message with this status byte is a note-on or a note-off message.
pub open spec fn message_is_note(status_byte: u8) -> bool {
    message_kind(status_byte) == MidiMessageKind::NoteOn || message_kind(status_byte)
        == MidiMessageKind::NoteOff
}

/// The channel of a message with this status byte, for channel messages.
pub open spec fn message_channel(status_byte: u8) -> Option<Channel> {
    if is_channel_kind(message_kind(status_byte)) {
        Some(Channel::from_value(status_byte % 16))
    } else {
        None
    }
}

/// The key number of a note-off, note-on or polyphonic key pressure message.
pub open spec fn message_key_number(status_byte: u8, data_byte_1: u8) -> Option<KeyNumber> {
    let kind = message_kind(status_byte);
    if kind == MidiMessageKind::NoteOff || kind == MidiMessageKind::NoteOn || kind
        == MidiMessageKind::PolyphonicKeyPressure {
        Some(KeyNumber::from_value(data_byte_1))
    } else {
        None
    }
}

/// The velocity of a note-off or note-on message.
pub open spec fn message_velocity(status_byte: u8, data_byte_2: u8) -> Option<U7> {
    let kind = message_kind(status_byte);
    if kind == MidiMessageKind::NoteOff || kind == MidiMessageKind::NoteOn {
        Some(U7::from_value(data_byte_2))
    } else {
        None
    }
}

/// The controller number of a control change message.
pub open spec fn message_controller_number(status_byte: u8, data_byte_1: u8) -> Option<
    ControllerNumber,
> {
    if message_kind(status_byte) == MidiMessageKind::ControlChange {
        Some(ControllerNumber::from_value(data_byte_1))
    } else {
        None
    }
}

/// The control value of a control change message.
pub open spec fn message_control_value(status_byte: u8, data_byte_2: u8) -> Option<U7> {
    if message_kind(status_byte) == MidiMessageKind::ControlChange {
        Some(U7::from_value(data_byte_2))
    } else {
        None
    }
}

/// The program number of a program change message.
pub open spec fn message_program_number(status_byte: u8, data_byte_1: u8) -> Option<
    ProgramNumber,
> {
    if message_kind(status_byte) == MidiMessageKind::ProgramChange {
        Some(ProgramNumber::from_value(data_byte_1))
    } else {
        None
    }
}

/// The pressure amount of a polyphonic key pressure message (second data byte) or of a
/// channel pressure message (first data byte).
pub open spec fn message_pressure_amount(status_byte: u8, data_byte_1: u8, data_byte_2: u8) -> Option<U7> {
    let kind = message_kind(status_byte);
    if kind == MidiMessageKind::PolyphonicKeyPressure {
        Some(U7::from_value(data_byte_2))
    } else if kind == MidiMessageKind::ChannelPressure {
        Some(U7::from_value(data_byte_1))
    } else {
        None
    }
}

/// The 14-bit value of two 7-bit values, `high` being the most significant part.
pub open spec fn value_14_bit(high: u8, low: u8) -> u16 {
    (high * 128 + low) as u16
}

/// The pitch bend value of a pitch bend change message: the second data byte is the most
/// significant part.
pub open spec fn message_pitch_bend_value(status_byte: u8, data_byte_1: u8, data_byte_2: u8) -> Option<U14> {
    if message_kind(status_byte) == MidiMessageKind::PitchBendChange {
        Some(U14::from_value(value_14_bit(data_byte_2, data_byte_1)))
    } else {
        None
    }
}

/// A MIDI message, seen through its status byte and its two data bytes.
///
/// Only the three byte-returning methods need to be implemented, the rest is done by default
/// methods, so that every representation of a message has the same API. An implementation
/// must return a valid status byte.
pub trait MidiMessage {
    /// The status byte of this message.
    spec fn status_byte_spec(&self) -> u8;

    /// The first data byte of this message.
    spec fn data_byte_1_spec(&self) -> u8;

    /// The second data byte of this message.
    spec fn data_byte_2_spec(&self) -> u8;

    fn get_status_byte(&self) -> (r: u8)
        ensures
            r == self.status_byte_spec(),
            is_status_byte(r),
    ;

    fn get_data_byte_1(&self) -> (r: U7)
        ensures
            r@ == self.data_byte_1_spec(),
    ;

    fn get_data_byte_2(&self) -> (r: U7)
        ensures
            r@ == self.data_byte_2_spec(),
    ;

    fn get_kind(&self) -> (r: MidiMessageKind)
        ensures
            kind_of_status_byte(self.status_byte_spec()) == Some(r),
    {
        get_midi_message_kind_from_status_byte(self.get_status_byte()).unwrap()
    }

    fn get_super_kind(&self) -> (r: MidiMessageSuperKind)
        ensures
            r == super_kind_of(message_kind(self.status_byte_spec())),
    {
        self.get_kind().get_super_kind()
    }

    fn get_main_category(&self) -> (r: MidiMessageMainCategory)
        ensures
            r == main_category_of(super_kind_of(message_kind(self.status_byte_spec()))),
    {
        self.get_super_kind().get_main_category()
    }

    fn to_structured(&self) -> (r: StructuredMidiMessage)
        ensures
            is_status_byte(self.status_byte_spec()),
            r == structured_from_bytes(
                self.status_byte_spec(),
                self.data_byte_1_spec(),
                self.data_byte_2_spec(),
            ),
    {
        let status_byte = self.get_status_byte();
        match self.get_kind() {
            MidiMessageKind::NoteOff => StructuredMidiMessage::NoteOff {
                channel: extract_channel_from_status_byte(status_byte),
                key_number: KeyNumber::from_u7(self.get_data_byte_1()),
                velocity: self.get_data_byte_2(),
            },
            MidiMessageKind::NoteOn => StructuredMidiMessage::NoteOn {
                channel: extract_channel_from_status_byte(status_byte),
                key_number: KeyNumber::from_u7(self.get_data_byte_1()),
                velocity: self.get_data_byte_2(),
            },
            MidiMessageKind::PolyphonicKeyPressure => StructuredMidiMessage::PolyphonicKeyPressure {
                channel: extract_channel_from_status_byte(status_byte),
                key_number: KeyNumber::from_u7(self.get_data_byte_1()),
                pressure_amount: self.get_data_byte_2(),
            },
            MidiMessageKind::ControlChange => StructuredMidiMessage::ControlChange {
                channel: extract_channel_from_status_byte(status_byte),
                controller_number: ControllerNumber::from_u7(self.get_data_byte_1()),
                control_value: self.get_data_byte_2(),
            },
            MidiMessageKind::ProgramChange => StructuredMidiMessage::ProgramChange {
                channel: extract_channel_from_status_byte(status_byte),
                program_number: ProgramNumber::from_u7(self.get_data_byte_1()),
            },
            MidiMessageKind::ChannelPressure => StructuredMidiMessage::ChannelPressure {
                channel: extract_channel_from_status_byte(status_byte),
                pressure_amount: self.get_data_byte_1(),
            },
            MidiMessageKind::PitchBendChange => StructuredMidiMessage::PitchBendChange {
                channel: extract_channel_from_status_byte(status_byte),
                pitch_bend_value: build_14_bit_value_from_two_7_bit_values(
                    self.get_data_byte_2(),
                    self.get_data_byte_1(),
                ),
            },
            MidiMessageKind::SystemExclusiveStart => StructuredMidiMessage::SystemExclusiveStart,
            MidiMessageKind::MidiTimeCodeQuarterFrame => StructuredMidiMessage::MidiTimeCodeQuarterFrame,
            MidiMessageKind::SongPositionPointer => StructuredMidiMessage::SongPositionPointer,
            MidiMessageKind::SongSelect => StructuredMidiMessage::SongSelect,
            MidiMessageKind::TuneRequest => StructuredMidiMessage::TuneRequest,
            MidiMessageKind::SystemExclusiveEnd => StructuredMidiMessage::SystemExclusiveEnd,
            MidiMessageKind::TimingClock => StructuredMidiMessage::TimingClock,
            MidiMessageKind::Start => StructuredMidiMessage::Start,
            MidiMessageKind::Continue => StructuredMidiMessage::Continue,
            MidiMessageKind::Stop => StructuredMidiMessage::Stop,
            MidiMessageKind::ActiveSensing => StructuredMidiMessage::ActiveSensing,
            MidiMessageKind::SystemReset => StructuredMidiMessage::SystemReset,
        }
    }

    /// False if the message kind is note-on but the velocity is 0.
    fn is_note_on(&self) -> (r: bool)
        ensures
            r == message_is_note_on(self.status_byte_spec(), self.data_byte_2_spec()),
    {
        match self.to_structured() {
            StructuredMidiMessage::NoteOn { velocity, .. } => velocity.get() > 0,
            _ => false,
        }
    }

    /// Also true if the message kind is note-on but the velocity is 0.
    fn is_note_off(&self) -> (r: bool)
        ensures
            r == message_is_note_off(self.status_byte_spec(), self.data_byte_2_spec()),
    {
        match self.to_structured() {
            StructuredMidiMessage::NoteOff { .. } => true,
            StructuredMidiMessage::NoteOn { velocity, .. } => velocity.get() == 0,
            _ => false,
        }
    }

    fn is_note(&self) -> (r: bool)
        ensures
            r == message_is_note(self.status_byte_spec()),
    {
        match self.get_kind() {
            MidiMessageKind::NoteOn | MidiMessageKind::NoteOff => true,
            _ => false,
        }
    }

    fn get_channel(&self) -> (r: Option<Channel>)
        ensures
            r == message_channel(self.status_byte_spec()),
    {
        if self.get_main_category() != MidiMessageMainCategory::Channel {
            return None;
        }
        Some(extract_channel_from_status_byte(self.get_status_byte()))
    }

    fn get_key_number(&self) -> (r: Option<KeyNumber>)
        ensures
            r == message_key_number(self.status_byte_spec(), self.data_byte_1_spec()),
    {
        match self.get_kind() {
            MidiMessageKind::NoteOff
            | MidiMessageKind::NoteOn
            | MidiMessageKind::PolyphonicKeyPressure => Some(
                KeyNumber::from_u7(self.get_data_byte_1()),
            ),
            _ => None,
        }
    }

    fn get_velocity(&self) -> (r: Option<U7>)
        ensures
            r == message_velocity(self.status_byte_spec(), self.data_byte_2_spec()),
    {
        match self.get_kind() {
            MidiMessageKind::NoteOff | MidiMessageKind::NoteOn => Some(self.get_data_byte_2()),
            _ => None,
        }
    }

    fn get_controller_number(&self) -> (r: Option<ControllerNumber>)
        ensures
            r == message_controller_number(self.status_byte_spec(), self.data_byte_1_spec()),
    {
        if self.get_kind() != MidiMessageKind::ControlChange {
            return None;
        }
        Some(ControllerNumber::from_u7(self.get_data_byte_1()))
    }

    fn get_control_value(&self) -> (r: Option<U7>)
        ensures
            r == message_control_value(self.status_byte_spec(), self.data_byte_2_spec()),
    {
        if self.get_kind() != MidiMessageKind::ControlChange {
            return None;
        }
        Some(self.get_data_byte_2())
    }

    fn get_program_number(&self) -> (r: Option<ProgramNumber>)
        ensures
            r == message_program_number(self.status_byte_spec(), self.data_byte_1_spec()),
    {
        if self.get_kind() != MidiMessageKind::ProgramChange {
            return None;
        }
        Some(ProgramNumber::from_u7(self.get_data_byte_1()))
    }

    fn get_pressure_amount(&self) -> (r: Option<U7>)
        ensures
            r == message_pressure_amount(
                self.status_byte_spec(),
                self.data_byte_1_spec(),
                self.data_byte_2_spec(),
            ),
    {
        match self.get_kind() {
            MidiMessageKind::PolyphonicKeyPressure => Some(self.get_data_byte_2()),
            MidiMessageKind::ChannelPressure => Some(self.get_data_byte_1()),
            _ => None,
        }
    }

    fn get_pitch_bend_value(&self) -> (r: Option<U14>)
        ensures
            r == message_pitch_bend_value(
                self.status_byte_spec(),
                self.data_byte_1_spec(),
                self.data_byte_2_spec(),
            ),
    {
        if self.get_kind() != MidiMessageKind::PitchBendChange {
            return None;
        }
        Some(
            build_14_bit_value_from_two_7_bit_values(
                self.get_data_byte_2(),
                self.get_data_byte_1(),
            ),
        )
    }
}

/// A message is a note message exactly when it is a note-on or a note-off message (a note-on
/// message with velocity zero counting as note-off), and never both.
pub proof fn lemma_note_classification(status_byte: u8, data_byte_2: u8)
    ensures
        message_is_note(status_byte) <==> (message_is_note_on(status_byte, data_byte_2)
            || message_is_note_off(status_byte, data_byte_2)),
        !(message_is_note_on(status_byte, data_byte_2) && message_is_note_off(
            status_byte,
            data_byte_2,
        )),
{
}

/// A message has a channel exactly when its main category is the channel category, and the
/// channel is the low nibble of its status byte.
pub proof fn lemma_channel_iff_channel_category(status_byte: u8)
    requires
        is_status_byte(status_byte),
    ensures
        message_channel(status_byte) is Some <==> main_category_of(
            super_kind_of(message_kind(status_byte)),
        ) == MidiMessageMainCategory::Channel,
        message_channel(status_byte) is Some ==> message_channel(status_byte)->0@ == status_byte
            % 16,
{
}

/// Note classification by the bytes themselves: a message is a note-on exactly when its status
/// byte is 0x90 to 0x9f and its velocity is above zero, whatever that velocity; it is a note-off
/// exactly when its status byte is 0x80 to 0x8f, or 0x90 to 0x9f with velocity zero; it is a
/// note exactly when its status byte is 0x80 to 0x9f.
pub proof fn lemma_note_classification_by_bytes(status_byte: u8, data_byte_2: u8)
    requires
        is_status_byte(status_byte),
        data_byte_2 < 128,
    ensures
        message_is_note_on(status_byte, data_byte_2) <==> (0x90 <= status_byte < 0xa0
            && data_byte_2 != 0),
        message_is_note_off(status_byte, data_byte_2) <==> (0x80 <= status_byte < 0x90 || (0x90
            <= status_byte < 0xa0 && data_byte_2 == 0)),
        message_is_note(status_byte) <==> 0x80 <= status_byte < 0xa0,
{
    lemma_midi_status_byte_table();
}

/// What each query reads, by the bytes themselves: for every valid status byte and all data
/// bytes below 128, each query answers exactly for the status bytes of its kinds, and then
/// gives the data byte (or bytes) that carry its value, whatever their value.
pub proof fn lemma_queries_by_bytes(status_byte: u8, data_byte_1: u8, data_byte_2: u8)
    requires
        is_status_byte(status_byte),
        data_byte_1 < 128,
        data_byte_2 < 128,
    ensures
        message_channel(status_byte) is Some <==> status_byte < 0xf0,
        message_channel(status_byte) is Some ==> message_channel(status_byte)->0@ == status_byte
            % 16,
        message_key_number(status_byte, data_byte_1) is Some <==> 0x80 <= status_byte < 0xb0,
        message_key_number(status_byte, data_byte_1) is Some ==> message_key_number(
            status_byte,
            data_byte_1,
        )->0@ == data_byte_1,
        message_velocity(status_byte, data_byte_2) is Some <==> 0x80 <= status_byte < 0xa0,
        message_velocity(status_byte, data_byte_2) is Some ==> message_velocity(
            status_byte,
            data_byte_2,
        )->0@ == data_byte_2,
        message_controller_number(status_byte, data_byte_1) is Some <==> 0xb0 <= status_byte
            < 0xc0,
        message_controller_number(status_byte, data_byte_1) is Some ==> message_controller_number(
            status_byte,
            data_byte_1,
        )->0@ == data_byte_1,
        message_control_value(status_byte, data_byte_2) is Some <==> 0xb0 <= status_byte < 0xc0,
        message_control_value(status_byte, data_byte_2) is Some ==> message_control_value(
            status_byte,
            data_byte_2,
        )->0@ == data_byte_2,
        message_program_number(status_byte, data_byte_1) is Some <==> 0xc0 <= status_byte < 0xd0,
        message_program_number(status_byte, data_byte_1) is Some ==> message_program_number(
            status_byte,
            data_byte_1,
        )->0@ == data_byte_1,
        message_pressure_amount(status_byte, data_byte_1, data_byte_2) is Some <==> (0xa0
            <= status_byte < 0xb0 || 0xd0 <= status_byte < 0xe0),
        0xa0 <= status_byte < 0xb0 ==> message_pressure_amount(
            status_byte,
            data_byte_1,
            data_byte_2,
        )->0@ == data_byte_2,
        0xd0 <= status_byte < 0xe0 ==> message_pressure_amount(
            status_byte,
            data_byte_1,
            data_byte_2,
        )->0@ == data_byte_1,
        message_pitch_bend_value(status_byte, data_byte_1, data_byte_2) is Some <==> 0xe0
            <= status_byte < 0xf0,
        message_pitch_bend_value(status_byte, data_byte_1, data_byte_2) is Some
            ==> message_pitch_bend_value(status_byte, data_byte_1, data_byte_2)->0@ == data_byte_2
            * 128 + data_byte_1,
{
    lemma_midi_status_byte_table();
}

} // verus!
