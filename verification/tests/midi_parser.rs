use voltshark::midi::parser::{MidiEvent, MidiParser};

/// Parser with a dummy serial port; tests drive parse_byte directly.
fn parser() -> MidiParser<()> {
    MidiParser::new(())
}

fn feed(p: &mut MidiParser<()>, bytes: &[u8]) -> Option<MidiEvent> {
    let mut event = None;
    for &b in bytes {
        if let Some(e) = p.parse_byte(b) {
            event = Some(e);
        }
    }
    event
}

#[test]
fn note_on_basic() {
    let mut p = parser();
    assert_eq!(p.parse_byte(0x90), None);
    assert_eq!(p.parse_byte(60), None);
    assert_eq!(
        p.parse_byte(100),
        Some(MidiEvent::NoteOn {
            channel: 0,
            note: 60,
            velocity: 100
        })
    );
}

#[test]
fn note_off_basic() {
    let mut p = parser();
    let e = feed(&mut p, &[0x83, 60, 64]);
    assert_eq!(
        e,
        Some(MidiEvent::NoteOff {
            channel: 3,
            note: 60,
            velocity: 64
        })
    );
}

#[test]
fn note_on_velocity_zero_is_note_off() {
    let mut p = parser();
    let e = feed(&mut p, &[0x90, 60, 0]);
    assert_eq!(
        e,
        Some(MidiEvent::NoteOff {
            channel: 0,
            note: 60,
            velocity: 0
        })
    );
}

#[test]
fn running_status_note_messages() {
    let mut p = parser();
    // One status byte, then three messages worth of data.
    assert_eq!(feed(&mut p, &[0x90, 60, 100]), Some(MidiEvent::NoteOn { channel: 0, note: 60, velocity: 100 }));
    assert_eq!(feed(&mut p, &[62, 100]), Some(MidiEvent::NoteOn { channel: 0, note: 62, velocity: 100 }));
    assert_eq!(feed(&mut p, &[64, 0]), Some(MidiEvent::NoteOff { channel: 0, note: 64, velocity: 0 }));
}

#[test]
fn running_status_program_change_single_data_byte() {
    let mut p = parser();
    assert_eq!(
        feed(&mut p, &[0xC0, 5]),
        Some(MidiEvent::ProgramChange {
            channel: 0,
            program: 5
        })
    );
    // Running status: next data byte alone is another program change,
    // not the first byte of a two-byte message.
    assert_eq!(
        p.parse_byte(7),
        Some(MidiEvent::ProgramChange {
            channel: 0,
            program: 7
        })
    );
}

#[test]
fn control_change_parsing() {
    let mut p = parser();
    let e = feed(&mut p, &[0xB2, 74, 127]);
    assert_eq!(
        e,
        Some(MidiEvent::ControlChange {
            channel: 2,
            controller: 74,
            value: 127
        })
    );
}

#[test]
fn pitch_bend_14bit_decode() {
    let mut p = parser();
    // Center: LSB 0x00, MSB 0x40 -> 0
    assert_eq!(
        feed(&mut p, &[0xE0, 0x00, 0x40]),
        Some(MidiEvent::PitchBend {
            channel: 0,
            value: 0
        })
    );
    // Max: 0x3FFF - 0x2000 = 8191
    assert_eq!(
        feed(&mut p, &[0xE0, 0x7F, 0x7F]),
        Some(MidiEvent::PitchBend {
            channel: 0,
            value: 8191
        })
    );
    // Min: 0 - 8192 = -8192
    assert_eq!(
        feed(&mut p, &[0xE0, 0x00, 0x00]),
        Some(MidiEvent::PitchBend {
            channel: 0,
            value: -8192
        })
    );
}

#[test]
fn channel_pressure_parsing() {
    let mut p = parser();
    let e = feed(&mut p, &[0xD5, 99]);
    assert_eq!(
        e,
        Some(MidiEvent::ChannelPressure {
            channel: 5,
            pressure: 99
        })
    );
}

#[test]
fn polyphonic_aftertouch_parsing() {
    let mut p = parser();
    let e = feed(&mut p, &[0xA1, 60, 50]);
    assert_eq!(
        e,
        Some(MidiEvent::Aftertouch {
            channel: 1,
            note: 60,
            pressure: 50
        })
    );
}

#[test]
fn stray_data_byte_without_status_produces_nothing() {
    let mut p = parser();
    assert_eq!(p.parse_byte(60), None);
    assert_eq!(p.parse_byte(100), None);
    assert_eq!(p.parse_byte(0x40), None);
}

#[test]
fn truncated_message_emits_nothing_until_complete() {
    let mut p = parser();
    assert_eq!(p.parse_byte(0x90), None);
    assert_eq!(p.parse_byte(60), None); // only one data byte so far
    // Complete it
    assert!(matches!(p.parse_byte(100), Some(MidiEvent::NoteOn { .. })));
}

#[test]
fn new_status_aborts_partial_message() {
    let mut p = parser();
    assert_eq!(p.parse_byte(0x90), None);
    assert_eq!(p.parse_byte(60), None); // partial note on
    // A new status byte replaces the pending message.
    assert_eq!(p.parse_byte(0xB0), None);
    assert_eq!(p.parse_byte(7), None);
    assert_eq!(
        p.parse_byte(127),
        Some(MidiEvent::ControlChange {
            channel: 0,
            controller: 7,
            value: 127
        })
    );
}

#[test]
fn realtime_messages_interleave_without_disturbing_state() {
    let mut p = parser();
    assert_eq!(p.parse_byte(0x90), None);
    assert_eq!(p.parse_byte(60), None);
    // Timing clock arrives mid-message.
    assert_eq!(p.parse_byte(0xF8), Some(MidiEvent::TimingClock));
    // The pending note-on completes normally.
    assert_eq!(
        p.parse_byte(100),
        Some(MidiEvent::NoteOn {
            channel: 0,
            note: 60,
            velocity: 100
        })
    );
}

#[test]
fn realtime_start_stop_continue_sensing_reset() {
    let mut p = parser();
    assert_eq!(p.parse_byte(0xFA), Some(MidiEvent::Start));
    assert_eq!(p.parse_byte(0xFB), Some(MidiEvent::Continue));
    assert_eq!(p.parse_byte(0xFC), Some(MidiEvent::Stop));
    assert_eq!(p.parse_byte(0xFE), Some(MidiEvent::ActiveSensing));
    assert_eq!(p.parse_byte(0xFF), Some(MidiEvent::Reset));
}

#[test]
fn sysex_collect_and_terminate() {
    let mut p = parser();
    let e = feed(&mut p, &[0xF0, 0x01, 0x02, 0x03, 0xF7]);
    match e {
        Some(MidiEvent::SysEx { data, len }) => {
            assert_eq!(len, 3);
            assert_eq!(&data[..3], &[0x01, 0x02, 0x03]);
        }
        other => panic!("expected SysEx, got {:?}", other),
    }
}

#[test]
fn channel_field_is_preserved_not_filtered() {
    // The parser performs no channel filtering; channel is passed through.
    let mut p = parser();
    let e = feed(&mut p, &[0x9F, 60, 100]);
    assert_eq!(
        e,
        Some(MidiEvent::NoteOn {
            channel: 15,
            note: 60,
            velocity: 100
        })
    );
}

// ---- further cases ----

#[test]
fn undefined_realtime_and_system_common_bytes_are_ignored() {
    let mut p = parser();
    assert_eq!(p.parse_byte(0x90), None);
    assert_eq!(p.parse_byte(60), None);
    assert_eq!(p.parse_byte(0xF9), None);
    assert_eq!(p.parse_byte(0xFD), None);
    // System common bytes are dropped without touching the pending message.
    assert_eq!(p.parse_byte(0xF3), None);
    assert_eq!(
        p.parse_byte(90),
        Some(MidiEvent::NoteOn { channel: 0, note: 60, velocity: 90 })
    );
}

#[test]
fn sysex_longer_than_sixteen_bytes_is_truncated() {
    let mut p = parser();
    assert_eq!(p.parse_byte(0xF0), None);
    for b in 0..40u8 {
        assert_eq!(p.parse_byte(b), None);
    }
    match p.parse_byte(0xF7) {
        Some(MidiEvent::SysEx { data, len }) => {
            assert_eq!(len, 16);
            let expected: Vec<u8> = (0..16u8).collect();
            assert_eq!(&data[..], &expected[..]);
        }
        other => panic!("expected SysEx, got {:?}", other),
    }
}

#[test]
fn short_sysex_payload_is_zero_padded() {
    let mut p = parser();
    match feed(&mut p, &[0xF0, 0x7F, 0xF7]) {
        Some(MidiEvent::SysEx { data, len }) => {
            assert_eq!(len, 1);
            assert_eq!(data[0], 0x7F);
            assert!(data[1..].iter().all(|&b| b == 0));
        }
        other => panic!("expected SysEx, got {:?}", other),
    }
}

#[test]
fn empty_sysex_reports_no_bytes() {
    let mut p = parser();
    assert_eq!(feed(&mut p, &[0xF0, 0xF7]), Some(MidiEvent::SysEx { data: [0; 16], len: 0 }));
}

#[test]
fn realtime_inside_sysex_is_not_captured() {
    let mut p = parser();
    assert_eq!(p.parse_byte(0xF0), None);
    assert_eq!(p.parse_byte(0x11), None);
    assert_eq!(p.parse_byte(0xF8), Some(MidiEvent::TimingClock));
    assert_eq!(p.parse_byte(0x22), None);
    match p.parse_byte(0xF7) {
        Some(MidiEvent::SysEx { data, len }) => {
            assert_eq!(len, 2);
            assert_eq!(&data[..2], &[0x11, 0x22]);
        }
        other => panic!("expected SysEx, got {:?}", other),
    }
}

#[test]
fn running_status_resumes_after_sysex() {
    let mut p = parser();
    assert_eq!(feed(&mut p, &[0xB4, 1, 2]), Some(MidiEvent::ControlChange { channel: 4, controller: 1, value: 2 }));
    assert!(matches!(feed(&mut p, &[0xF0, 5, 0xF7]), Some(MidiEvent::SysEx { .. })));
    assert_eq!(p.parse_byte(3), None);
    assert_eq!(p.parse_byte(4), Some(MidiEvent::ControlChange { channel: 4, controller: 3, value: 4 }));
}

#[test]
fn running_status_channel_pressure() {
    let mut p = parser();
    assert_eq!(feed(&mut p, &[0xD2, 10]), Some(MidiEvent::ChannelPressure { channel: 2, pressure: 10 }));
    assert_eq!(p.parse_byte(11), Some(MidiEvent::ChannelPressure { channel: 2, pressure: 11 }));
}

#[test]
fn pitch_bend_mid_values() {
    let mut p = parser();
    assert_eq!(
        feed(&mut p, &[0xE3, 0x01, 0x40]),
        Some(MidiEvent::PitchBend { channel: 3, value: 1 })
    );
    assert_eq!(
        feed(&mut p, &[0x7F, 0x3F]),
        Some(MidiEvent::PitchBend { channel: 3, value: -1 })
    );
}

#[test]
fn serial_port_is_kept() {
    let p = MidiParser::new(42u32);
    assert_eq!(p.serial, 42);
}
