pub mod midi_message;
pub mod raw_midi_message;
pub mod structured_midi_message;
pub mod types;
pub mod util;

pub use midi_message::{
    build_byte_from_nibbles, extract_channel_from_status_byte, extract_high_nibble_from_byte,
    get_midi_message_kind_from_status_byte, KindFromByteError, MidiMessage, MidiMessageKind,
    MidiMessageMainCategory, MidiMessageSuperKind,
};
pub use raw_midi_message::RawMidiMessage;
pub use structured_midi_message::StructuredMidiMessage;
pub use types::{
    channel, controller_number, key_number, program_number, u14, u7, Channel, ControllerNumber,
    KeyNumber, ProgramNumber, U14, U7,
};
pub use util::{
    build_14_bit_value_from_two_7_bit_values, extract_high_7_bit_value_from_14_bit_value,
    extract_low_7_bit_value_from_14_bit_value,
};
