//! A minimal channel-message MIDI decoder.
pub mod parser;

use vstd::prelude::*;

verus! {

/// MIDI channels are 4-bit.
type U4 = u8;

/// A decoded channel message.
#[derive(Debug, Clone, Copy, PartialEq, Eq)]
pub enum MidiMessage {
    NoteOn { channel: U4, note: u8, velocity: u8 },
    NoteOff { channel: U4, note: u8, velocity: u8 },
    ControlChange { channel: U4, controller: u8, value: u8 },
    PitchBend { channel: U4, value: i16 },
    ProgramChange { channel: U4, program: u8 },
}

/// The parser's abstract state: the current status byte, the two data slots
/// and how many data bytes of the current message have been received.
pub struct MessageState {
    pub status: u8,
    pub data0: u8,
    pub data1: u8,
    pub index: u8,
}

/// High nibble of a status byte (8 = note off, 9 = note on, ...).
pub open spec fn status_kind(status: u8) -> int {
    status as int / 16
}

/// Low nibble of a status byte: the MIDI channel.
pub open spec fn status_channel(status: u8) -> u8 {
    (status % 16) as u8
}

/// Number of data bytes that complete a message with this status.
pub open spec fn data_count_of(status: u8) -> u8 {
    let k = status_kind(status);
    if k == 8 || k == 9 || k == 10 || k == 11 || k == 14 {
        2
    } else if k == 12 || k == 13 {
        1
    } else {
        0
    }
}

/// The pitch-bend value this decoder reports for data bytes `lsb`, `msb`.
/// The 14-bit word `msb:lsb`, centred on zero.
pub open spec fn bend_value(lsb: u8, msb: u8) -> int {
    128 * msb + lsb - 8192
}

/// The message that a complete set of data bytes forms under `status`.
pub open spec fn message_of(status: u8, d0: u8, d1: u8) -> Option<MidiMessage> {
    let k = status_kind(status);
    let channel = status_channel(status);
    if k == 9 && d1 > 0 {
        Some(MidiMessage::NoteOn { channel, note: d0, velocity: d1 })
    } else if k == 8 || k == 9 {
        Some(MidiMessage::NoteOff { channel, note: d0, velocity: d1 })
    } else if k == 11 {
        Some(MidiMessage::ControlChange { channel, controller: d0, value: d1 })
    } else if k == 14 {
        Some(MidiMessage::PitchBend { channel, value: bend_value(d0, d1) as i16 })
    } else if k == 12 {
        Some(MidiMessage::ProgramChange { channel, program: d0 })
    } else {
        None
    }
}

/// One step of the decoder: the state after `byte` and the message it completes.
pub open spec fn step(s: MessageState, byte: u8) -> (MessageState, Option<MidiMessage>) {
    if byte >= 0x80 {
        (MessageState { status: byte, data0: s.data0, data1: s.data1, index: 0 }, None)
    } else {
        let d0 = if s.index == 0 { byte } else { s.data0 };
        let d1 = if s.index == 1 { byte } else { s.data1 };
        let index = if s.index < 2 { (s.index + 1) as u8 } else { s.index };
        if index >= data_count_of(s.status) {
            (MessageState { status: s.status, data0: d0, data1: d1, index: 0 }, message_of(s.status, d0, d1))
        } else {
            (MessageState { status: s.status, data0: d0, data1: d1, index }, None)
        }
    }
}


/// A status byte never completes a message; it starts a new one.
pub proof fn law_status_resets(s: MessageState, st: u8)
    requires
        st >= 0x80,
    ensures
        step(s, st).1 is None,
        step(s, st).0.status == st,
        step(s, st).0.index == 0,
{
}

/// From any state, a two-data-byte status followed by its data bytes yields
/// the message they encode; the parser is then ready for the next pair under
/// the same (running) status.
pub proof fn law_two_data_message(s: MessageState, st: u8, a: u8, b: u8)
    requires
        st >= 0x80,
        data_count_of(st) == 2,
        a < 0x80,
        b < 0x80,
    ensures
        ({
            let s1 = step(s, st).0;
            let s2 = step(s1, a).0;
            &&& step(s1, a).1 is None
            &&& step(s2, b).1 == message_of(st, a, b)
            &&& step(s2, b).0.status == st
            &&& step(s2, b).0.index == 0
        }),
{
}

/// Running status: at the start of a message, two data bytes complete
/// another message with the same status.
pub proof fn law_running_status(s: MessageState, a: u8, b: u8)
    requires
        s.index == 0,
        data_count_of(s.status) == 2,
        a < 0x80,
        b < 0x80,
    ensures
        step(s, a).1 is None,
        step(step(s, a).0, b).1 == message_of(s.status, a, b),
        step(step(s, a).0, b).0.status == s.status,
        step(step(s, a).0, b).0.index == 0,
{
}

/// A one-data-byte status (program change, channel pressure) completes its
/// message on every following data byte.
pub proof fn law_one_data_message(s: MessageState, a: u8)
    requires
        s.index == 0,
        data_count_of(s.status) == 1,
        a < 0x80,
    ensures
        step(s, a).1 == message_of(s.status, a, s.data1),
        step(s, a).0.index == 0,
{
}

/// Data bytes under a status that carries no data (none received yet, or a
/// system status) produce nothing.
pub proof fn law_no_message_without_channel_status(s: MessageState, a: u8)
    requires
        data_count_of(s.status) == 0,
        a < 0x80,
    ensures
        step(s, a).1 is None,
        step(s, a).0.status == s.status,
{
}

/// The pitch-bend value reported lies in -8192 ..= 8191, with the centre
/// word 0x2000 (lsb 0, msb 0x40) at zero.
pub proof fn law_bend_value_range(lsb: u8, msb: u8)
    requires
        lsb < 0x80,
        msb < 0x80,
    ensures
        -8192 <= bend_value(lsb, msb) <= 8191,
        bend_value(0, 0x40) == 0,
{
}

/// The message completed by the third byte of `st`, `a`, `b`, read from `s`.
pub open spec fn third_byte_message(s: MessageState, st: u8, a: u8, b: u8) -> Option<MidiMessage> {
    step(step(step(s, st).0, a).0, b).1
}

/// The message completed by the second byte of `st`, `a`, read from `s`.
pub open spec fn second_byte_message(s: MessageState, st: u8, a: u8) -> Option<MidiMessage> {
    step(step(s, st).0, a).1
}

/// What each status decodes to, from any decoder state: the channel is the
/// status byte's low nibble, the note, controller or program is the first
/// data byte, velocity or value the second, unchanged; a pitch bend is the
/// 14-bit word `b:a` less 8192. Aftertouch and channel pressure are consumed
/// and report nothing.
pub proof fn law_messages_decode(s: MessageState, n: u8, a: u8, b: u8)
    requires
        n < 16,
        a < 0x80,
        b < 0x80,
    ensures
        third_byte_message(s, (0x80 + n) as u8, a, b) == Some(MidiMessage::NoteOff { channel: n, note: a, velocity: b }),
        b > 0 ==> third_byte_message(s, (0x90 + n) as u8, a, b) == Some(
            MidiMessage::NoteOn { channel: n, note: a, velocity: b },
        ),
        b == 0 ==> third_byte_message(s, (0x90 + n) as u8, a, b) == Some(
            MidiMessage::NoteOff { channel: n, note: a, velocity: 0 },
        ),
        third_byte_message(s, (0xB0 + n) as u8, a, b) == Some(
            MidiMessage::ControlChange { channel: n, controller: a, value: b },
        ),
        third_byte_message(s, (0xE0 + n) as u8, a, b) == Some(
            MidiMessage::PitchBend { channel: n, value: (128 * b + a - 8192) as i16 },
        ),
        third_byte_message(s, (0xA0 + n) as u8, a, b) is None,
        second_byte_message(s, (0x80 + n) as u8, a) is None,
        second_byte_message(s, (0x90 + n) as u8, a) is None,
        second_byte_message(s, (0xA0 + n) as u8, a) is None,
        second_byte_message(s, (0xB0 + n) as u8, a) is None,
        second_byte_message(s, (0xE0 + n) as u8, a) is None,
        second_byte_message(s, (0xC0 + n) as u8, a) == Some(MidiMessage::ProgramChange { channel: n, program: a }),
        second_byte_message(s, (0xD0 + n) as u8, a) is None,
{
    assert(((0x80 + n) as u8) as int / 16 == 8 && ((0x80 + n) as u8) % 16 == n);
    assert(((0x90 + n) as u8) as int / 16 == 9 && ((0x90 + n) as u8) % 16 == n);
    assert(((0xA0 + n) as u8) as int / 16 == 10 && ((0xA0 + n) as u8) % 16 == n);
    assert(((0xB0 + n) as u8) as int / 16 == 11 && ((0xB0 + n) as u8) % 16 == n);
    assert(((0xC0 + n) as u8) as int / 16 == 12 && ((0xC0 + n) as u8) % 16 == n);
    assert(((0xD0 + n) as u8) as int / 16 == 13 && ((0xD0 + n) as u8) % 16 == n);
    assert(((0xE0 + n) as u8) as int / 16 == 14 && ((0xE0 + n) as u8) % 16 == n);
}

/// Every message the decoder reports carries the channel of its status
/// byte's low nibble.
pub proof fn law_channel_is_low_nibble(st: u8, a: u8, b: u8)
    ensures
        match message_of(st, a, b) {
            Some(MidiMessage::NoteOn { channel, .. }) => channel == st % 16,
            Some(MidiMessage::NoteOff { channel, .. }) => channel == st % 16,
            Some(MidiMessage::ControlChange { channel, .. }) => channel == st % 16,
            Some(MidiMessage::PitchBend { channel, .. }) => channel == st % 16,
            Some(MidiMessage::ProgramChange { channel, .. }) => channel == st % 16,
            None => true,
        },
{
}

/// Channel-message parser with running status.
pub struct MidiParser {
    status: u8,
    data: [u8; 2],
    data_index: u8,
}

impl View for MidiParser {
    type V = MessageState;

    closed spec fn view(&self) -> MessageState {
        MessageState { status: self.status, data0: self.data@[0], data1: self.data@[1], index: self.data_index }
    }
}

impl MidiParser {
    #[verifier::type_invariant]
    closed spec fn inv(self) -> bool {
        &&& self.data_index <= 2
        &&& self.data@[0] < 0x80
        &&& self.data@[1] < 0x80
    }

    /// A parser waiting for its first status byte.
    pub fn new() -> (p: Self)
        ensures
            p@ == (MessageState { status: 0, data0: 0, data1: 0, index: 0 }),
    {
        MidiParser { status: 0, data: [0; 2], data_index: 0 }
    }

    /// Feed one byte; returns the message it completes, if any.
    pub fn parse_byte(&mut self, byte: u8) -> (r: Option<MidiMessage>)
        ensures
            (final(self)@, r) == step(old(self)@, byte),
    {
        proof { use_type_invariant(&*self); }
        if byte >= 0x80 {
            self.status = byte;
            self.data_index = 0;
            None
        } else {
            if self.data_index < 2 {
                let i = self.data_index as usize;
                self.data[i] = byte;
                self.data_index = self.data_index + 1;
            }
            if self.data_index >= self.data_count() {
                self.data_index = 0;
                self.build_message()
            } else {
                None
            }
        }
    }

    fn data_count(&self) -> (n: u8)
        ensures
            n == data_count_of(self.status),
    {
        let s = self.status;
        let kind = s & 0xF0;
        assert(s & 0xF0 == (s / 16) * 16) by (bit_vector);
        if kind == 0x80 || kind == 0x90 || kind == 0xA0 || kind == 0xB0 || kind == 0xE0 {
            2
        } else if kind == 0xC0 || kind == 0xD0 {
            1
        } else {
            0
        }
    }

    fn build_message(&self) -> (m: Option<MidiMessage>)
        ensures
            m == message_of(self@.status, self@.data0, self@.data1),
    {
        proof { use_type_invariant(self); }
        let s = self.status;
        let channel = s & 0x0F;
        let kind = s & 0xF0;
        assert(s & 0xF0 == (s / 16) * 16) by (bit_vector);
        assert(s & 0x0F == s % 16) by (bit_vector);
        let d0 = self.data[0];
        let d1 = self.data[1];
        if kind == 0x90 && d1 > 0 {
            Some(MidiMessage::NoteOn { channel, note: d0, velocity: d1 })
        } else if kind == 0x80 || kind == 0x90 {
            Some(MidiMessage::NoteOff { channel, note: d0, velocity: d1 })
        } else if kind == 0xB0 {
            Some(MidiMessage::ControlChange { channel, controller: d0, value: d1 })
        } else if kind == 0xE0 {
            assert(((d1 as i16) << 7) | (d0 as i16) == 128 * d1 + d0) by (bit_vector)
                requires d0 < 0x80, d1 < 0x80;
            let value = (((d1 as i16) << 7) | (d0 as i16)) - 8192;
            Some(MidiMessage::PitchBend { channel, value })
        } else if kind == 0xC0 {
            Some(MidiMessage::ProgramChange { channel, program: d0 })
        } else {
            None
        }
    }
}

} // verus!
