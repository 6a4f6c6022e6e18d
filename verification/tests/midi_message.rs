use helgoboss_midi::{
    channel as ch, controller_number, key_number, program_number, u14, u7, Channel, MidiMessage,
    MidiMessageKind, MidiMessageMainCategory, MidiMessageSuperKind, RawMidiMessage,
    StructuredMidiMessage,
};

#[test]
fn from_bytes_ok() {
    // Given
    let msg = RawMidiMessage::from_bytes(145, u7(64), u7(100)).unwrap();
    // When
    // Then
    assert_eq!(msg.get_status_byte(), 145);
    assert_eq!(msg.get_data_byte_1(), u7(64));
    assert_eq!(msg.get_data_byte_2(), u7(100));
    assert_eq!(msg.get_kind(), MidiMessageKind::NoteOn);
    assert_eq!(msg.get_super_kind(), MidiMessageSuperKind::Channel);
    assert_eq!(msg.get_main_category(), MidiMessageMainCategory::Channel);
    assert_eq!(msg.get_channel(), Some(ch(1)));
    assert_eq!(msg.get_key_number(), Some(key_number(64)));
    assert_eq!(msg.get_velocity(), Some(u7(100)));
    assert_eq!(msg.get_controller_number(), None);
    assert_eq!(msg.get_control_value(), None);
    assert_eq!(msg.get_pitch_bend_value(), None);
    assert_eq!(msg.get_pressure_amount(), None);
    assert_eq!(msg.get_program_number(), None);
    assert_eq!(
        msg.to_structured(),
        StructuredMidiMessage::NoteOn {
            channel: ch(1),
            key_number: key_number(64),
            velocity: u7(100),
        }
    );
    assert!(msg.is_note());
    assert!(msg.is_note_on());
    assert!(!msg.is_note_off());
}

#[test]
fn from_bytes_err() {
    // Given
    let msg = RawMidiMessage::from_bytes(2, u7(64), u7(100));
    // When
    // Then
    assert!(msg.is_err());
}

#[test]
fn note_on() {
    // Given
    let msg = RawMidiMessage::note_on(ch(1), key_number(64), u7(100));
    // When
    // Then
    assert_eq!(msg.get_status_byte(), 145);
    assert_eq!(msg.get_data_byte_1(), u7(64));
    assert_eq!(msg.get_data_byte_2(), u7(100));
    assert_eq!(msg.get_kind(), MidiMessageKind::NoteOn);
    assert_eq!(msg.get_super_kind(), MidiMessageSuperKind::Channel);
    assert_eq!(msg.get_main_category(), MidiMessageMainCategory::Channel);
    assert_eq!(msg.get_channel(), Some(ch(1)));
    assert_eq!(msg.get_key_number(), Some(key_number(64)));
    assert_eq!(msg.get_velocity(), Some(u7(100)));
    assert_eq!(msg.get_controller_number(), None);
    assert_eq!(msg.get_control_value(), None);
    assert_eq!(msg.get_pitch_bend_value(), None);
    assert_eq!(msg.get_pressure_amount(), None);
    assert_eq!(msg.get_program_number(), None);
    assert_eq!(
        msg.to_structured(),
        StructuredMidiMessage::NoteOn {
            channel: ch(1),
            key_number: key_number(64),
            velocity: u7(100),
        }
    );
    assert!(msg.is_note());
    assert!(msg.is_note_on());
    assert!(!msg.is_note_off());
}

#[test]
fn real_note_off() {
    // Given
    let msg = RawMidiMessage::note_off(ch(2), key_number(125), u7(70));
    // When
    // Then
    assert_eq!(msg.get_status_byte(), 0x82);
    assert_eq!(msg.get_data_byte_1(), u7(125));
    assert_eq!(msg.get_data_byte_2(), u7(70));
    assert_eq!(msg.get_kind(), MidiMessageKind::NoteOff);
    assert_eq!(msg.get_super_kind(), MidiMessageSuperKind::Channel);
    assert_eq!(msg.get_main_category(), MidiMessageMainCategory::Channel);
    assert_eq!(msg.get_channel(), Some(ch(2)));
    assert_eq!(msg.get_key_number(), Some(key_number(125)));
    assert_eq!(msg.get_velocity(), Some(u7(70)));
    assert_eq!(msg.get_controller_number(), None);
    assert_eq!(msg.get_control_value(), None);
    assert_eq!(msg.get_pitch_bend_value(), None);
    assert_eq!(msg.get_pressure_amount(), None);
    assert_eq!(msg.get_program_number(), None);
    assert_eq!(
        msg.to_structured(),
        StructuredMidiMessage::NoteOff {
            channel: ch(2),
            key_number: key_number(125),
            velocity: u7(70),
        }
    );
    assert!(msg.is_note());
    assert!(!msg.is_note_on());
    assert!(msg.is_note_off());
}

#[test]
fn fake_note_off() {
    // Given
    let msg = RawMidiMessage::note_on(ch(0), key_number(5), u7(0));
    // When
    // Then
    assert_eq!(msg.get_status_byte(), 0x90);
    assert_eq!(msg.get_data_byte_1(), u7(5));
    assert_eq!(msg.get_data_byte_2(), u7(0));
    assert_eq!(msg.get_kind(), MidiMessageKind::NoteOn);
    assert_eq!(msg.get_super_kind(), MidiMessageSuperKind::Channel);
    assert_eq!(msg.get_main_category(), MidiMessageMainCategory::Channel);
    assert_eq!(msg.get_channel(), Some(ch(0)));
    assert_eq!(msg.get_key_number(), Some(key_number(5)));
    assert_eq!(msg.get_velocity(), Some(u7(0)));
    assert_eq!(msg.get_controller_number(), None);
    assert_eq!(msg.get_control_value(), None);
    assert_eq!(msg.get_pitch_bend_value(), None);
    assert_eq!(msg.get_pressure_amount(), None);
    assert_eq!(msg.get_program_number(), None);
    assert_eq!(
        msg.to_structured(),
        StructuredMidiMessage::NoteOn {
            channel: ch(0),
            key_number: key_number(5),
            velocity: u7(0),
        }
    );
    assert!(msg.is_note());
    assert!(!msg.is_note_on());
    assert!(msg.is_note_off());
}

#[test]
fn control_change() {
    // Given
    let msg = RawMidiMessage::control_change(ch(1), controller_number(50), u7(2));
    // When
    // Then
    assert_eq!(msg.get_status_byte(), 0xb1);
    assert_eq!(msg.get_data_byte_1(), u7(50));
    assert_eq!(msg.get_data_byte_2(), u7(2));
    assert_eq!(msg.get_kind(), MidiMessageKind::ControlChange);
    assert_eq!(msg.get_super_kind(), MidiMessageSuperKind::Channel);
    assert_eq!(msg.get_main_category(), MidiMessageMainCategory::Channel);
    assert_eq!(msg.get_channel(), Some(ch(1)));
    assert_eq!(msg.get_key_number(), None);
    assert_eq!(msg.get_velocity(), None);
    assert_eq!(msg.get_controller_number(), Some(controller_number(50)));
    assert_eq!(msg.get_control_value(), Some(u7(2)));
    assert_eq!(msg.get_pitch_bend_value(), None);
    assert_eq!(msg.get_pressure_amount(), None);
    assert_eq!(msg.get_program_number(), None);
    assert_eq!(
        msg.to_structured(),
        StructuredMidiMessage::ControlChange {
            channel: ch(1),
            controller_number: controller_number(50),
            control_value: u7(2),
        }
    );
    assert!(!msg.is_note());
    assert!(!msg.is_note_on());
    assert!(!msg.is_note_off());
}

#[test]
fn program_change() {
    // Given
    let msg = RawMidiMessage::program_change(ch(4), program_number(22));
    // When
    // Then
    assert_eq!(msg.get_status_byte(), 0xc4);
    assert_eq!(msg.get_data_byte_1(), u7(22));
    assert_eq!(msg.get_data_byte_2(), u7(0));
    assert_eq!(msg.get_kind(), MidiMessageKind::ProgramChange);
    assert_eq!(msg.get_super_kind(), MidiMessageSuperKind::Channel);
    assert_eq!(msg.get_main_category(), MidiMessageMainCategory::Channel);
    assert_eq!(msg.get_channel(), Some(ch(4)));
    assert_eq!(msg.get_key_number(), None);
    assert_eq!(msg.get_velocity(), None);
    assert_eq!(msg.get_controller_number(), None);
    assert_eq!(msg.get_control_value(), None);
    assert_eq!(msg.get_pitch_bend_value(), None);
    assert_eq!(msg.get_pressure_amount(), None);
    assert_eq!(msg.get_program_number(), Some(program_number(22)));
    assert_eq!(
        msg.to_structured(),
        StructuredMidiMessage::ProgramChange {
            channel: ch(4),
            program_number: program_number(22),
        }
    );
    assert!(!msg.is_note());
    assert!(!msg.is_note_on());
    assert!(!msg.is_note_off());
}

#[test]
fn polyphonic_key_pressure() {
    // Given
    let msg = RawMidiMessage::polyphonic_key_pressure(ch(15), key_number(127), u7(50));
    // When
    // Then
    assert_eq!(msg.get_status_byte(), 0xaf);
    assert_eq!(msg.get_data_byte_1(), u7(127));
    assert_eq!(msg.get_data_byte_2(), u7(50));
    assert_eq!(msg.get_kind(), MidiMessageKind::PolyphonicKeyPressure);
    assert_eq!(msg.get_super_kind(), MidiMessageSuperKind::Channel);
    assert_eq!(msg.get_main_category(), MidiMessageMainCategory::Channel);
    assert_eq!(msg.get_channel(), Some(ch(15)));
    assert_eq!(msg.get_key_number(), Some(key_number(127)));
    assert_eq!(msg.get_velocity(), None);
    assert_eq!(msg.get_controller_number(), None);
    assert_eq!(msg.get_control_value(), None);
    assert_eq!(msg.get_pitch_bend_value(), None);
    assert_eq!(msg.get_pressure_amount(), Some(u7(50)));
    assert_eq!(msg.get_program_number(), None);
    assert_eq!(
        msg.to_structured(),
        StructuredMidiMessage::PolyphonicKeyPressure {
            channel: ch(15),
            key_number: key_number(127),
            pressure_amount: u7(50),
        }
    );
    assert!(!msg.is_note());
    assert!(!msg.is_note_on());
    assert!(!msg.is_note_off());
}

#[test]
fn channel_pressure() {
    // Given
    let msg = RawMidiMessage::channel_pressure(ch(14), u7(0));
    // When
    // Then
    assert_eq!(msg.get_status_byte(), 0xde);
    assert_eq!(msg.get_data_byte_1(), u7(0));
    assert_eq!(msg.get_data_byte_2(), u7(0));
    assert_eq!(msg.get_kind(), MidiMessageKind::ChannelPressure);
    assert_eq!(msg.get_super_kind(), MidiMessageSuperKind::Channel);
    assert_eq!(msg.get_main_category(), MidiMessageMainCategory::Channel);
    assert_eq!(msg.get_channel(), Some(ch(14)));
    assert_eq!(msg.get_key_number(), None);
    assert_eq!(msg.get_velocity(), None);
    assert_eq!(msg.get_controller_number(), None);
    assert_eq!(msg.get_control_value(), None);
    assert_eq!(msg.get_pitch_bend_value(), None);
    assert_eq!(msg.get_pressure_amount(), Some(u7(0)));
    assert_eq!(msg.get_program_number(), None);
    assert_eq!(
        msg.to_structured(),
        StructuredMidiMessage::ChannelPressure {
            channel: ch(14),
            pressure_amount: u7(0),
        }
    );
    assert!(!msg.is_note());
    assert!(!msg.is_note_on());
    assert!(!msg.is_note_off());
}

#[test]
fn pitch_bend_change() {
    // Given
    let msg = RawMidiMessage::pitch_bend_change(ch(1), u14(1278));
    // When
    // Then
    assert_eq!(msg.get_status_byte(), 0xe1);
    assert_eq!(msg.get_data_byte_1(), u7(126));
    assert_eq!(msg.get_data_byte_2(), u7(9));
    assert_eq!(msg.get_kind(), MidiMessageKind::PitchBendChange);
    assert_eq!(msg.get_super_kind(), MidiMessageSuperKind::Channel);
    assert_eq!(msg.get_main_category(), MidiMessageMainCategory::Channel);
    assert_eq!(msg.get_channel(), Some(ch(1)));
    assert_eq!(msg.get_key_number(), None);
    assert_eq!(msg.get_velocity(), None);
    assert_eq!(msg.get_controller_number(), None);
    assert_eq!(msg.get_control_value(), None);
    assert_eq!(msg.get_pitch_bend_value(), Some(u14(1278)));
    assert_eq!(msg.get_pressure_amount(), None);
    assert_eq!(msg.get_program_number(), None);
    assert_eq!(
        msg.to_structured(),
        StructuredMidiMessage::PitchBendChange {
            channel: ch(1),
            pitch_bend_value: u14(1278),
        }
    );
    assert!(!msg.is_note());
    assert!(!msg.is_note_on());
    assert!(!msg.is_note_off());
}

#[test]
fn timing_clock() {
    // Given
    let msg = RawMidiMessage::timing_clock();
    // When
    // Then
    assert_eq!(msg.get_status_byte(), 0xf8);
    assert_eq!(msg.get_data_byte_1(), u7(0));
    assert_eq!(msg.get_data_byte_2(), u7(0));
    assert_eq!(msg.get_kind(), MidiMessageKind::TimingClock);
    assert_eq!(msg.get_super_kind(), MidiMessageSuperKind::SystemRealTime);
    assert_eq!(msg.get_main_category(), MidiMessageMainCategory::System);
    assert_eq!(msg.get_channel(), None);
    assert_eq!(msg.get_key_number(), None);
    assert_eq!(msg.get_velocity(), None);
    assert_eq!(msg.get_controller_number(), None);
    assert_eq!(msg.get_control_value(), None);
    assert_eq!(msg.get_pitch_bend_value(), None);
    assert_eq!(msg.get_pressure_amount(), None);
    assert_eq!(msg.get_program_number(), None);
    assert_eq!(msg.to_structured(), StructuredMidiMessage::TimingClock);
    assert!(!msg.is_note());
    assert!(!msg.is_note_on());
    assert!(!msg.is_note_off());
}

#[test]
fn start() {
    // Given
    let msg = RawMidiMessage::start();
    // When
    // Then
    assert_eq!(msg.get_status_byte(), 0xfa);
    assert_eq!(msg.get_data_byte_1(), u7(0));
    assert_eq!(msg.get_data_byte_2(), u7(0));
    assert_eq!(msg.get_kind(), MidiMessageKind::Start);
    assert_eq!(msg.get_super_kind(), MidiMessageSuperKind::SystemRealTime);
    assert_eq!(msg.get_main_category(), MidiMessageMainCategory::System);
    assert_eq!(msg.get_channel(), None);
    assert_eq!(msg.get_key_number(), None);
    assert_eq!(msg.get_velocity(), None);
    assert_eq!(msg.get_controller_number(), None);
    assert_eq!(msg.get_control_value(), None);
    assert_eq!(msg.get_pitch_bend_value(), None);
    assert_eq!(msg.get_pressure_amount(), None);
    assert_eq!(msg.get_program_number(), None);
    assert_eq!(msg.to_structured(), StructuredMidiMessage::Start);
    assert!(!msg.is_note());
    assert!(!msg.is_note_on());
    assert!(!msg.is_note_off());
}

#[test]
fn continue_message() {
    // Given
    let msg = RawMidiMessage::continue_message();
    // When
    // Then
    assert_eq!(msg.get_status_byte(), 0xfb);
    assert_eq!(msg.get_data_byte_1(), u7(0));
    assert_eq!(msg.get_data_byte_2(), u7(0));
    assert_eq!(msg.get_kind(), MidiMessageKind::Continue);
    assert_eq!(msg.get_super_kind(), MidiMessageSuperKind::SystemRealTime);
    assert_eq!(msg.get_main_category(), MidiMessageMainCategory::System);
    assert_eq!(msg.get_channel(), None);
    assert_eq!(msg.get_key_number(), None);
    assert_eq!(msg.get_velocity(), None);
    assert_eq!(msg.get_controller_number(), None);
    assert_eq!(msg.get_control_value(), None);
    assert_eq!(msg.get_pitch_bend_value(), None);
    assert_eq!(msg.get_pressure_amount(), None);
    assert_eq!(msg.get_program_number(), None);
    assert_eq!(msg.to_structured(), StructuredMidiMessage::Continue);
    assert!(!msg.is_note());
    assert!(!msg.is_note_on());
    assert!(!msg.is_note_off());
}

#[test]
fn stop_message() {
    // Given
    let msg = RawMidiMessage::stop();
    // When
    // Then
    assert_eq!(msg.get_status_byte(), 0xfc);
    assert_eq!(msg.get_data_byte_1(), u7(0));
    assert_eq!(msg.get_data_byte_2(), u7(0));
    assert_eq!(msg.get_kind(), MidiMessageKind::Stop);
    assert_eq!(msg.get_super_kind(), MidiMessageSuperKind::SystemRealTime);
    assert_eq!(msg.get_main_category(), MidiMessageMainCategory::System);
    assert_eq!(msg.get_channel(), None);
    assert_eq!(msg.get_key_number(), None);
    assert_eq!(msg.get_velocity(), None);
    assert_eq!(msg.get_controller_number(), None);
    assert_eq!(msg.get_control_value(), None);
    assert_eq!(msg.get_pitch_bend_value(), None);
    assert_eq!(msg.get_pressure_amount(), None);
    assert_eq!(msg.get_program_number(), None);
    assert_eq!(msg.to_structured(), StructuredMidiMessage::Stop);
    assert!(!msg.is_note());
    assert!(!msg.is_note_on());
    assert!(!msg.is_note_off());
}

#[test]
fn active_sensing() {
    // Given
    let msg = RawMidiMessage::active_sensing();
    // When
    // Then
    assert_eq!(msg.get_status_byte(), 0xfe);
    assert_eq!(msg.get_data_byte_1(), u7(0));
    assert_eq!(msg.get_data_byte_2(), u7(0));
    assert_eq!(msg.get_kind(), MidiMessageKind::ActiveSensing);
    assert_eq!(msg.get_super_kind(), MidiMessageSuperKind::SystemRealTime);
    assert_eq!(msg.get_main_category(), MidiMessageMainCategory::System);
    assert_eq!(msg.get_channel(), None);
    assert_eq!(msg.get_key_number(), None);
    assert_eq!(msg.get_velocity(), None);
    assert_eq!(msg.get_controller_number(), None);
    assert_eq!(msg.get_control_value(), None);
    assert_eq!(msg.get_pitch_bend_value(), None);
    assert_eq!(msg.get_pressure_amount(), None);
    assert_eq!(msg.get_program_number(), None);
    assert_eq!(msg.to_structured(), StructuredMidiMessage::ActiveSensing);
    assert!(!msg.is_note());
    assert!(!msg.is_note_on());
    assert!(!msg.is_note_off());
}

#[test]
fn system_reset() {
    // Given
    let msg = RawMidiMessage::system_reset();
    // When
    // Then
    assert_eq!(msg.get_status_byte(), 0xff);
    assert_eq!(msg.get_data_byte_1(), u7(0));
    assert_eq!(msg.get_data_byte_2(), u7(0));
    assert_eq!(msg.get_kind(), MidiMessageKind::SystemReset);
    assert_eq!(msg.get_super_kind(), MidiMessageSuperKind::SystemRealTime);
    assert_eq!(msg.get_main_category(), MidiMessageMainCategory::System);
    assert_eq!(msg.get_channel(), None);
    assert_eq!(msg.get_key_number(), None);
    assert_eq!(msg.get_velocity(), None);
    assert_eq!(msg.get_controller_number(), None);
    assert_eq!(msg.get_control_value(), None);
    assert_eq!(msg.get_pitch_bend_value(), None);
    assert_eq!(msg.get_pressure_amount(), None);
    assert_eq!(msg.get_program_number(), None);
    assert_eq!(msg.to_structured(), StructuredMidiMessage::SystemReset);
    assert!(!msg.is_note());
    assert!(!msg.is_note_on());
    assert!(!msg.is_note_off());
}

#[test]
fn structured() {
    // Given
    let msg = StructuredMidiMessage::from_bytes(145, u7(64), u7(100)).unwrap();
    // When
    // Then
    let expected_msg = StructuredMidiMessage::NoteOn {
        channel: ch(1),
        key_number: key_number(64),
        velocity: u7(100),
    };
    assert_eq!(msg, expected_msg);
    assert_eq!(msg.get_status_byte(), 145);
    assert_eq!(msg.get_data_byte_1(), u7(64));
    assert_eq!(msg.get_data_byte_2(), u7(100));
    assert_eq!(msg.get_kind(), MidiMessageKind::NoteOn);
    assert_eq!(msg.get_super_kind(), MidiMessageSuperKind::Channel);
    assert_eq!(msg.get_main_category(), MidiMessageMainCategory::Channel);
    assert_eq!(msg.get_channel(), Some(ch(1)));
    assert_eq!(msg.get_key_number(), Some(key_number(64)));
    assert_eq!(msg.get_velocity(), Some(u7(100)));
    assert_eq!(msg.get_controller_number(), None);
    assert_eq!(msg.get_control_value(), None);
    assert_eq!(msg.get_pitch_bend_value(), None);
    assert_eq!(msg.get_pressure_amount(), None);
    assert_eq!(msg.get_program_number(), None);
    assert_eq!(msg.to_structured(), expected_msg);
    assert!(msg.is_note());
    assert!(msg.is_note_on());
    assert!(!msg.is_note_off());
}

#[test]
fn structured_and_back() {
    // Given
    let messages: Vec<RawMidiMessage> = (0..=255u8)
        .filter_map(|v| MidiMessageKind::try_from_u8(v).ok())
        .flat_map(move |kind| match kind.get_super_kind() {
            MidiMessageSuperKind::Channel => (0..Channel::COUNT)
                .map(|c| RawMidiMessage::channel_message(kind, ch(c), u7(0), u7(0)))
                .collect(),
            MidiMessageSuperKind::SystemRealTime => {
                vec![RawMidiMessage::system_real_time_message(kind)]
            }
            _ => vec![],
        })
        .collect();
    for msg in messages {
        // When
        let structured = msg.to_structured();
        let restored = RawMidiMessage::from_structured(&structured);
        // Then
        assert_equal_results(&msg, &structured);
        assert_equal_results(&msg, &restored);
    }
}

fn assert_equal_results(first: &impl MidiMessage, second: &impl MidiMessage) {
    assert_eq!(first.get_status_byte(), second.get_status_byte());
    assert_eq!(first.get_data_byte_1(), second.get_data_byte_1());
    assert_eq!(first.get_data_byte_2(), second.get_data_byte_2());
    assert_eq!(first.get_kind(), second.get_kind());
    assert_eq!(first.get_super_kind(), second.get_super_kind());
    assert_eq!(first.get_main_category(), second.get_main_category());
    assert_eq!(first.get_channel(), second.get_channel());
    assert_eq!(first.get_key_number(), second.get_key_number());
    assert_eq!(first.get_velocity(), second.get_velocity());
    assert_eq!(
        first.get_controller_number(),
        second.get_controller_number()
    );
    assert_eq!(first.get_control_value(), second.get_control_value());
    assert_eq!(first.get_pitch_bend_value(), second.get_pitch_bend_value());
    assert_eq!(first.get_pressure_amount(), second.get_pressure_amount());
    assert_eq!(first.get_program_number(), second.get_program_number());
    assert_eq!(first.is_note(), second.is_note());
    assert_eq!(first.is_note_on(), second.is_note_on());
    assert_eq!(first.is_note_off(), second.is_note_off());
}
