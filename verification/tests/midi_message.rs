use voltshark::midi::{MidiMessage, MidiParser};

fn feed(p: &mut MidiParser, bytes: &[u8]) -> Option<MidiMessage> {
    let mut last = None;
    for &b in bytes {
        last = p.parse_byte(b);
    }
    last
}

#[test]
fn simple_decoder_note_on_and_off() {
    let mut p = MidiParser::new();
    assert_eq!(p.parse_byte(0x91), None);
    assert_eq!(p.parse_byte(60), None);
    assert_eq!(p.parse_byte(100), Some(MidiMessage::NoteOn { channel: 1, note: 60, velocity: 100 }));
    assert_eq!(feed(&mut p, &[0x82, 61, 5]), Some(MidiMessage::NoteOff { channel: 2, note: 61, velocity: 5 }));
}

#[test]
fn simple_decoder_velocity_zero_is_note_off() {
    let mut p = MidiParser::new();
    assert_eq!(feed(&mut p, &[0x90, 64, 0]), Some(MidiMessage::NoteOff { channel: 0, note: 64, velocity: 0 }));
}

#[test]
fn simple_decoder_running_status() {
    let mut p = MidiParser::new();
    assert_eq!(feed(&mut p, &[0xB5, 7, 100]), Some(MidiMessage::ControlChange { channel: 5, controller: 7, value: 100 }));
    assert_eq!(p.parse_byte(10), None);
    assert_eq!(p.parse_byte(20), Some(MidiMessage::ControlChange { channel: 5, controller: 10, value: 20 }));
}

#[test]
fn simple_decoder_program_change_each_byte() {
    let mut p = MidiParser::new();
    assert_eq!(feed(&mut p, &[0xC3, 9]), Some(MidiMessage::ProgramChange { channel: 3, program: 9 }));
    assert_eq!(p.parse_byte(12), Some(MidiMessage::ProgramChange { channel: 3, program: 12 }));
}

#[test]
fn simple_decoder_ignores_unsupported_and_missing_status() {
    let mut p = MidiParser::new();
    // No status byte yet.
    assert_eq!(p.parse_byte(60), None);
    assert_eq!(p.parse_byte(61), None);
    // Aftertouch and channel pressure are consumed but not reported.
    assert_eq!(feed(&mut p, &[0xA0, 60, 30]), None);
    assert_eq!(feed(&mut p, &[0xD0, 30]), None);
    // A system status carries no data.
    assert_eq!(feed(&mut p, &[0xF2, 1, 2]), None);
}

#[test]
fn simple_decoder_pitch_bend_formula() {
    // The 14-bit word (msb << 7 | lsb), centred on zero.
    let mut p = MidiParser::new();
    assert_eq!(feed(&mut p, &[0xE0, 0x00, 0x40]), Some(MidiMessage::PitchBend { channel: 0, value: 0 }));
    assert_eq!(feed(&mut p, &[0xE0, 0x7F, 0x7F]), Some(MidiMessage::PitchBend { channel: 0, value: 8191 }));
    assert_eq!(feed(&mut p, &[0xE0, 0x00, 0x00]), Some(MidiMessage::PitchBend { channel: 0, value: -8192 }));
    assert_eq!(feed(&mut p, &[0xE2, 0x05, 0x01]), Some(MidiMessage::PitchBend { channel: 2, value: 133 - 8192 }));
}
