//! Full MIDI byte-stream parser: channel voice messages with running
//! status, system real-time messages (which may appear anywhere), and
//! system-exclusive capture.
pub mod constants;

use vstd::prelude::*;

verus! {

/// MIDI event types
#[derive(Debug, Clone, Copy, PartialEq)]
pub enum MidiEvent {
    NoteOn { channel: u8, note: u8, velocity: u8 },
    NoteOff { channel: u8, note: u8, velocity: u8 },
    ControlChange { channel: u8, controller: u8, value: u8 },
    ProgramChange { channel: u8, program: u8 },
    /// -8192 to 8191
    PitchBend { channel: u8, value: i16 },
    Aftertouch { channel: u8, note: u8, pressure: u8 },
    ChannelPressure { channel: u8, pressure: u8 },
    TimingClock,
    Start,
    Continue,
    Stop,
    ActiveSensing,
    Reset,
    SysEx { data: [u8; 16], len: u8 },
}

/// Where the parser is within the current message.
#[derive(Debug, Clone, Copy, PartialEq, Eq)]
pub enum ParseState {
    Idle,
    Data1,
    Data2,
    SysEx,
}

/// Capacity of the system-exclusive capture buffer.
pub const SYSEX_CAPACITY: usize = 128;

/// Number of captured system-exclusive bytes an event carries.
pub const SYSEX_EVENT_BYTES: usize = 16;

/// MIDI parser state machine
pub struct MidiParser<U> {
    state: ParseState,
    status: u8,
    data1: u8,
    channel: u8,
    running_status: u8,
    sysex_buffer: [u8; 128],
    sysex_len: usize,
    pub serial: U,
}

/// The abstract state of a parser: its stage, the current message's status
/// (high nibble only) and channel, the first data byte, the last channel
/// status byte (0 when none was seen) and the captured system-exclusive bytes.
pub struct ParserState {
    pub stage: ParseState,
    pub status: u8,
    pub data1: u8,
    pub channel: u8,
    pub running_status: u8,
    pub sysex: Seq<u8>,
}

/// Well-formed abstract states: 7-bit data byte, 4-bit channel, bounded capture.
pub open spec fn state_wf(s: ParserState) -> bool {
    &&& s.data1 < 0x80
    &&& s.channel < 16
    &&& s.sysex.len() <= SYSEX_CAPACITY
}

/// The state of a freshly created parser.
pub open spec fn initial_state() -> ParserState {
    ParserState { stage: ParseState::Idle, status: 0, data1: 0, channel: 0, running_status: 0, sysex: Seq::empty() }
}

/// Real-time bytes 0xF8..=0xFF and the event each one stands for.
pub open spec fn realtime_event(byte: u8) -> Option<MidiEvent> {
    if byte == 0xF8 {
        Some(MidiEvent::TimingClock)
    } else if byte == 0xFA {
        Some(MidiEvent::Start)
    } else if byte == 0xFB {
        Some(MidiEvent::Continue)
    } else if byte == 0xFC {
        Some(MidiEvent::Stop)
    } else if byte == 0xFE {
        Some(MidiEvent::ActiveSensing)
    } else if byte == 0xFF {
        Some(MidiEvent::Reset)
    } else {
        None
    }
}

/// High nibble of a status byte, as a status value (0x80, 0x90, ...).
pub open spec fn status_of(byte: u8) -> u8 {
    ((byte as int / 16) * 16) as u8
}

/// Whether messages with this status carry one data byte (program change,
/// channel pressure).
pub open spec fn is_single_data(status: u8) -> bool {
    status == 0xC0 || status == 0xD0
}

/// The event a one-data-byte message forms.
pub open spec fn single_event(status: u8, channel: u8, data1: u8) -> Option<MidiEvent> {
    if status == 0xC0 {
        Some(MidiEvent::ProgramChange { channel, program: data1 })
    } else if status == 0xD0 {
        Some(MidiEvent::ChannelPressure { channel, pressure: data1 })
    } else {
        None
    }
}

/// The pitch-bend value of a 14-bit word split into 7-bit `lsb` and `msb`.
pub open spec fn bend_of(lsb: u8, msb: u8) -> int {
    128 * msb + lsb - 8192
}

/// The event a two-data-byte message forms. A note-on of velocity 0 is a note-off.
pub open spec fn pair_event(status: u8, channel: u8, data1: u8, data2: u8) -> Option<MidiEvent> {
    if status == 0x80 {
        Some(MidiEvent::NoteOff { channel, note: data1, velocity: data2 })
    } else if status == 0x90 {
        if data2 == 0 {
            Some(MidiEvent::NoteOff { channel, note: data1, velocity: 0 })
        } else {
            Some(MidiEvent::NoteOn { channel, note: data1, velocity: data2 })
        }
    } else if status == 0xA0 {
        Some(MidiEvent::Aftertouch { channel, note: data1, pressure: data2 })
    } else if status == 0xB0 {
        Some(MidiEvent::ControlChange { channel, controller: data1, value: data2 })
    } else if status == 0xE0 {
        Some(MidiEvent::PitchBend { channel, value: bend_of(data1, data2) as i16 })
    } else {
        None
    }
}

/// The sixteen payload bytes a system-exclusive event carries: the first
/// captured bytes, zero-padded.
pub open spec fn sysex_payload(captured: Seq<u8>) -> Seq<u8> {
    Seq::new(SYSEX_EVENT_BYTES as nat, |i: int| if i < captured.len() { captured[i] } else { 0u8 })
}

/// Number of bytes a system-exclusive event reports.
pub open spec fn sysex_event_len(captured: Seq<u8>) -> int {
    if captured.len() < SYSEX_EVENT_BYTES { captured.len() as int } else { SYSEX_EVENT_BYTES as int }
}

/// `r` is the system-exclusive event for the captured bytes.
pub open spec fn is_sysex_event(r: Option<MidiEvent>, captured: Seq<u8>) -> bool {
    &&& r matches Some(MidiEvent::SysEx { data, len })
    &&& r->0->len == sysex_event_len(captured)
    &&& r->0->data@ == sysex_payload(captured)
}

/// The state after the parser reads `byte` in state `s`.
pub open spec fn next_state(s: ParserState, byte: u8) -> ParserState {
    if byte >= 0xF8 {
        s
    } else if byte >= 0x80 {
        if byte == 0xF0 {
            ParserState { stage: ParseState::SysEx, sysex: Seq::empty(), ..s }
        } else if byte == 0xF7 {
            ParserState { stage: ParseState::Idle, ..s }
        } else if byte >= 0xF1 {
            s
        } else {
            ParserState {
                stage: ParseState::Data1,
                status: status_of(byte),
                channel: (byte % 16) as u8,
                running_status: byte,
                ..s
            }
        }
    } else {
        match s.stage {
            ParseState::Idle => {
                if s.running_status != 0 {
                    let status = status_of(s.running_status);
                    let channel = (s.running_status % 16) as u8;
                    if is_single_data(status) {
                        ParserState { status, channel, data1: byte, ..s }
                    } else {
                        ParserState { stage: ParseState::Data2, status, channel, data1: byte, ..s }
                    }
                } else {
                    s
                }
            },
            ParseState::Data1 => {
                if is_single_data(s.status) {
                    ParserState { stage: ParseState::Idle, data1: byte, ..s }
                } else {
                    ParserState { stage: ParseState::Data2, data1: byte, ..s }
                }
            },
            ParseState::Data2 => ParserState { stage: ParseState::Idle, ..s },
            ParseState::SysEx => {
                if s.sysex.len() < SYSEX_CAPACITY {
                    ParserState { sysex: s.sysex.push(byte), ..s }
                } else {
                    s
                }
            },
        }
    }
}

/// The event (other than a system-exclusive one) that `byte` completes in state `s`.
pub open spec fn event_of(s: ParserState, byte: u8) -> Option<MidiEvent> {
    if byte >= 0xF8 {
        realtime_event(byte)
    } else if byte >= 0x80 {
        None
    } else {
        match s.stage {
            ParseState::Idle => {
                if s.running_status != 0 {
                    single_event(status_of(s.running_status), (s.running_status % 16) as u8, byte)
                } else {
                    None
                }
            },
            ParseState::Data1 => single_event(s.status, s.channel, byte),
            ParseState::Data2 => pair_event(s.status, s.channel, s.data1, byte),
            ParseState::SysEx => None,
        }
    }
}

/// `r` is what the parser returns on reading `byte` in state `s`: a
/// system-exclusive event for 0xF7, otherwise `event_of(s, byte)`.
pub open spec fn emits(s: ParserState, byte: u8, r: Option<MidiEvent>) -> bool {
    if byte == 0xF7 {
        is_sysex_event(r, s.sysex)
    } else {
        r == event_of(s, byte)
    }
}


/// The state after the parser reads every byte of `bytes`, in order.
pub open spec fn run(s: ParserState, bytes: Seq<u8>) -> ParserState
    decreases bytes.len(),
{
    if bytes.len() == 0 {
        s
    } else {
        next_state(run(s, bytes.drop_last()), bytes.last())
    }
}

/// Reading `bytes` from `s` completes no event (a 0xF7 among them would).
pub open spec fn silent(s: ParserState, bytes: Seq<u8>) -> bool {
    forall|i: int|
        0 <= i < bytes.len() ==> bytes[i] != 0xF7 && #[trigger] event_of(run(s, bytes.take(i)), bytes[i])
            is None
}

/// Every byte of `bytes` is a data byte.
pub open spec fn all_data(bytes: Seq<u8>) -> bool {
    forall|i: int| 0 <= i < bytes.len() ==> #[trigger] bytes[i] < 0x80
}

/// Every abstract state the parser can step through stays well formed.
pub proof fn law_step_keeps_wf(s: ParserState, byte: u8)
    requires
        state_wf(s),
    ensures
        state_wf(next_state(s, byte)),
{
    assert((byte % 16) < 16);
}

/// Real-time bytes may appear anywhere: they leave the parser's state
/// untouched and report their own event.
pub proof fn law_realtime_transparent(s: ParserState, byte: u8)
    requires
        byte >= 0xF8,
    ensures
        next_state(s, byte) == s,
        emits(s, byte, realtime_event(byte)),
        byte != 0xF9 && byte != 0xFD ==> realtime_event(byte) is Some,
{
}

/// From any state, a channel status byte followed by two data bytes yields
/// exactly the message they encode, on the channel of the status byte, with
/// nothing emitted earlier; a pending partial message is abandoned. The
/// parser then waits idle with that status as running status.
pub proof fn law_two_data_message(s: ParserState, st: u8, a: u8, b: u8)
    requires
        0x80 <= st < 0xF0,
        !is_single_data(status_of(st)),
        a < 0x80,
        b < 0x80,
    ensures
        ({
            let s1 = next_state(s, st);
            let s2 = next_state(s1, a);
            let s3 = next_state(s2, b);
            &&& event_of(s, st) is None
            &&& event_of(s1, a) is None
            &&& event_of(s2, b) == pair_event(status_of(st), (st % 16) as u8, a, b)
            &&& event_of(s2, b) is Some
            &&& s3.stage == ParseState::Idle
            &&& s3.running_status == st
        }),
{
}

/// From any state, a program-change or channel-pressure status byte
/// followed by its one data byte yields that message.
pub proof fn law_one_data_message(s: ParserState, st: u8, a: u8)
    requires
        0x80 <= st < 0xF0,
        is_single_data(status_of(st)),
        a < 0x80,
    ensures
        ({
            let s1 = next_state(s, st);
            &&& event_of(s, st) is None
            &&& event_of(s1, a) == single_event(status_of(st), (st % 16) as u8, a)
            &&& event_of(s1, a) is Some
            &&& next_state(s1, a).stage == ParseState::Idle
            &&& next_state(s1, a).running_status == st
        }),
{
}

/// Running status: while idle after a two-data-byte channel message, two
/// more data bytes form another message with the same status and channel,
/// and the parser is ready for the next pair.
pub proof fn law_running_status_pair(s: ParserState, c: u8, d: u8)
    requires
        s.stage == ParseState::Idle,
        0x80 <= s.running_status < 0xF0,
        !is_single_data(status_of(s.running_status)),
        c < 0x80,
        d < 0x80,
    ensures
        ({
            let rs = s.running_status;
            let s1 = next_state(s, c);
            &&& event_of(s, c) is None
            &&& event_of(s1, d) == pair_event(status_of(rs), (rs % 16) as u8, c, d)
            &&& next_state(s1, d).stage == ParseState::Idle
            &&& next_state(s1, d).running_status == rs
        }),
{
}

/// Running status for one-data-byte messages: each data byte alone is
/// another message.
pub proof fn law_running_status_single(s: ParserState, c: u8)
    requires
        s.stage == ParseState::Idle,
        0x80 <= s.running_status < 0xF0,
        is_single_data(status_of(s.running_status)),
        c < 0x80,
    ensures
        event_of(s, c) == single_event(status_of(s.running_status), (s.running_status % 16) as u8, c),
        next_state(s, c).stage == ParseState::Idle,
        next_state(s, c).running_status == s.running_status,
{
}

/// A note-on with velocity zero is reported as a note-off.
pub proof fn law_note_on_velocity_zero(channel: u8, note: u8)
    ensures
        pair_event(0x90, channel, note, 0) == Some(MidiEvent::NoteOff { channel, note, velocity: 0 }),
{
}

/// Pitch bend decodes the 14-bit word centred on zero: -8192 ..= 8191,
/// with 0x2000 (lsb 0, msb 0x40) at zero.
pub proof fn law_pitch_bend_range(lsb: u8, msb: u8)
    requires
        lsb < 0x80,
        msb < 0x80,
    ensures
        -8192 <= bend_of(lsb, msb) <= 8191,
        bend_of(0, 0x40) == 0,
{
}

/// Data bytes without any preceding status byte leave a new parser as it
/// was and produce nothing.
pub proof fn law_stray_data_ignored(bytes: Seq<u8>)
    requires
        all_data(bytes),
    ensures
        run(initial_state(), bytes) == initial_state(),
        silent(initial_state(), bytes),
    decreases bytes.len(),
{
    if bytes.len() > 0 {
        let init = bytes.drop_last();
        law_stray_data_ignored(init);
        assert forall|i: int| 0 <= i < bytes.len() implies bytes[i] != 0xF7 && #[trigger] event_of(
            run(initial_state(), bytes.take(i)),
            bytes[i],
        ) is None by {
            if i < bytes.len() - 1 {
                assert(bytes.take(i) =~= init.take(i));
                assert(init[i] == bytes[i]);
            } else {
                assert(bytes.take(i) =~= init);
            }
        }
    }
}

/// Bytes captured after a system-exclusive start: data bytes are collected,
/// up to the buffer's capacity, and nothing is emitted.
pub proof fn lemma_sysex_capture(s: ParserState, bytes: Seq<u8>)
    requires
        s.stage == ParseState::SysEx,
        all_data(bytes),
    ensures
        run(s, bytes).stage == ParseState::SysEx,
        run(s, bytes).sysex == (s.sysex + bytes).take(
            if s.sysex.len() + bytes.len() <= SYSEX_CAPACITY {
                (s.sysex.len() + bytes.len()) as int
            } else if s.sysex.len() <= SYSEX_CAPACITY {
                SYSEX_CAPACITY as int
            } else {
                s.sysex.len() as int
            },
        ),
        silent(s, bytes),
    decreases bytes.len(),
{
    if bytes.len() > 0 {
        let init = bytes.drop_last();
        lemma_sysex_capture(s, init);
        assert((s.sysex + bytes).take((s.sysex.len() + init.len()) as int) =~= s.sysex + init);
        assert((s.sysex + bytes) =~= (s.sysex + init).push(bytes.last()));
        assert forall|i: int| 0 <= i < bytes.len() implies bytes[i] != 0xF7 && #[trigger] event_of(
            run(s, bytes.take(i)),
            bytes[i],
        ) is None by {
            if i < bytes.len() - 1 {
                assert(bytes.take(i) =~= init.take(i));
                assert(init[i] == bytes[i]);
            } else {
                assert(bytes.take(i) =~= init);
            }
        }
        let n: int = (s.sysex.len() + init.len()) as int;
        if n < SYSEX_CAPACITY {
            assert((s.sysex + bytes).take(n + 1) =~= (s.sysex + init).push(bytes.last()));
        } else if s.sysex.len() <= SYSEX_CAPACITY {
            assert((s.sysex + bytes).take(SYSEX_CAPACITY as int) =~= (s.sysex + init).take(
                SYSEX_CAPACITY as int,
            ));
        } else {
            assert((s.sysex + bytes).take(s.sysex.len() as int) =~= (s.sysex + init).take(
                s.sysex.len() as int,
            ));
        }
    }
}

/// From any state, 0xF0, data bytes, 0xF7 reports a system-exclusive event
/// holding the first (at most sixteen) data bytes, zero-padded, with nothing
/// emitted before the terminator.
pub proof fn law_sysex_message(s: ParserState, bytes: Seq<u8>, r: Option<MidiEvent>)
    requires
        all_data(bytes),
        emits(run(next_state(s, 0xF0), bytes), 0xF7, r),
    ensures
        silent(next_state(s, 0xF0), bytes),
        r matches Some(MidiEvent::SysEx { data, len }),
        r->0->len == if bytes.len() < 16 { bytes.len() as int } else { 16 },
        forall|i: int| 0 <= i < 16 ==> #[trigger] r->0->data@[i] == if i < bytes.len() { bytes[i] } else { 0u8 },
        next_state(run(next_state(s, 0xF0), bytes), 0xF7).stage == ParseState::Idle,
{
    let s0 = next_state(s, 0xF0);
    lemma_sysex_capture(s0, bytes);
    assert(s0.sysex + bytes =~= bytes);
    let cap = run(s0, bytes).sysex;
    assert forall|i: int| 0 <= i < 16 implies #[trigger] r->0->data@[i] == if i < bytes.len() {
        bytes[i]
    } else {
        0u8
    } by {
        assert(r->0->data@ == sysex_payload(cap));
    }
}

/// The event that the third byte of `st`, `a`, `b` completes, read from `s`.
pub open spec fn third_byte_event(s: ParserState, st: u8, a: u8, b: u8) -> Option<MidiEvent> {
    event_of(next_state(next_state(s, st), a), b)
}

/// The event that the second byte of `st`, `a` completes, read from `s`.
pub open spec fn second_byte_event(s: ParserState, st: u8, a: u8) -> Option<MidiEvent> {
    event_of(next_state(s, st), a)
}

/// What each channel voice message decodes to, from any parser state: the
/// channel is the status byte's low nibble, the note or controller is the
/// first data byte, and velocity, value or pressure is the second data byte,
/// unchanged; a pitch bend is the 14-bit word `b:a` less 8192. Two-byte
/// messages emit nothing on their first data byte.
pub proof fn law_channel_messages_decode(s: ParserState, n: u8, a: u8, b: u8)
    requires
        n < 16,
        a < 0x80,
        b < 0x80,
    ensures
        third_byte_event(s, (0x80 + n) as u8, a, b) == Some(MidiEvent::NoteOff { channel: n, note: a, velocity: b }),
        b > 0 ==> third_byte_event(s, (0x90 + n) as u8, a, b) == Some(
            MidiEvent::NoteOn { channel: n, note: a, velocity: b },
        ),
        b == 0 ==> third_byte_event(s, (0x90 + n) as u8, a, b) == Some(
            MidiEvent::NoteOff { channel: n, note: a, velocity: 0 },
        ),
        third_byte_event(s, (0xA0 + n) as u8, a, b) == Some(MidiEvent::Aftertouch { channel: n, note: a, pressure: b }),
        third_byte_event(s, (0xB0 + n) as u8, a, b) == Some(
            MidiEvent::ControlChange { channel: n, controller: a, value: b },
        ),
        third_byte_event(s, (0xE0 + n) as u8, a, b) == Some(
            MidiEvent::PitchBend { channel: n, value: (128 * b + a - 8192) as i16 },
        ),
        second_byte_event(s, (0x80 + n) as u8, a) is None,
        second_byte_event(s, (0x90 + n) as u8, a) is None,
        second_byte_event(s, (0xA0 + n) as u8, a) is None,
        second_byte_event(s, (0xB0 + n) as u8, a) is None,
        second_byte_event(s, (0xE0 + n) as u8, a) is None,
        second_byte_event(s, (0xC0 + n) as u8, a) == Some(MidiEvent::ProgramChange { channel: n, program: a }),
        second_byte_event(s, (0xD0 + n) as u8, a) == Some(MidiEvent::ChannelPressure { channel: n, pressure: a }),
{
    assert(status_of((0x80 + n) as u8) == 0x80 && ((0x80 + n) as u8) % 16 == n);
    assert(status_of((0x90 + n) as u8) == 0x90 && ((0x90 + n) as u8) % 16 == n);
    assert(status_of((0xA0 + n) as u8) == 0xA0 && ((0xA0 + n) as u8) % 16 == n);
    assert(status_of((0xB0 + n) as u8) == 0xB0 && ((0xB0 + n) as u8) % 16 == n);
    assert(status_of((0xC0 + n) as u8) == 0xC0 && ((0xC0 + n) as u8) % 16 == n);
    assert(status_of((0xD0 + n) as u8) == 0xD0 && ((0xD0 + n) as u8) % 16 == n);
    assert(status_of((0xE0 + n) as u8) == 0xE0 && ((0xE0 + n) as u8) % 16 == n);
}

/// Running status repeats the last message type: once a channel message
/// `st`, `a`, `b` is complete, two more data bytes `c`, `d` decode exactly as
/// `st`, `c`, `d` would; for a one-data-byte status, one more byte `c`
/// decodes as `st`, `c`.
pub proof fn law_running_status_repeats(s: ParserState, st: u8, a: u8, b: u8, c: u8, d: u8)
    requires
        0x80 <= st < 0xF0,
        a < 0x80,
        b < 0x80,
        c < 0x80,
        d < 0x80,
    ensures
        !is_single_data(status_of(st)) ==> {
            let s3 = next_state(next_state(next_state(s, st), a), b);
            &&& event_of(s3, c) is None
            &&& event_of(next_state(s3, c), d) == third_byte_event(s, st, c, d)
        },
        is_single_data(status_of(st)) ==> {
            let s2 = next_state(next_state(s, st), a);
            event_of(s2, c) == second_byte_event(s, st, c)
        },
{
}

/// The real-time bytes and what each reports, from any state, which they
/// leave unchanged; the two undefined ones (0xF9, 0xFD) report nothing.
pub proof fn law_realtime_table(s: ParserState, byte: u8)
    requires
        byte >= 0xF8,
    ensures
        next_state(s, byte) == s,
        event_of(s, 0xF8) == Some(MidiEvent::TimingClock),
        event_of(s, 0xFA) == Some(MidiEvent::Start),
        event_of(s, 0xFB) == Some(MidiEvent::Continue),
        event_of(s, 0xFC) == Some(MidiEvent::Stop),
        event_of(s, 0xFE) == Some(MidiEvent::ActiveSensing),
        event_of(s, 0xFF) == Some(MidiEvent::Reset),
        event_of(s, 0xF9) is None,
        event_of(s, 0xFD) is None,
{
}

/// Status bytes other than the system-exclusive terminator report nothing.
pub proof fn law_status_bytes_report_nothing(s: ParserState, byte: u8)
    requires
        0x80 <= byte < 0xF8,
        byte != 0xF7,
    ensures
        event_of(s, byte) is None,
        emits(s, byte, None),
{
}

/// System-exclusive capture keeps the first 128 data bytes after 0xF0, in
/// order, and drops the rest; nothing is emitted while capturing.
pub proof fn law_sysex_capacity(s: ParserState, bytes: Seq<u8>)
    requires
        all_data(bytes),
    ensures
        run(next_state(s, 0xF0), bytes).sysex == bytes.take(if bytes.len() <= 128 { bytes.len() as int } else { 128 }),
        run(next_state(s, 0xF0), bytes).stage == ParseState::SysEx,
        silent(next_state(s, 0xF0), bytes),
{
    lemma_sysex_capture(next_state(s, 0xF0), bytes);
    assert(next_state(s, 0xF0).sysex + bytes =~= bytes);
}

/// System-common bytes 0xF1 ..= 0xF6 are dropped: the parser's state is
/// unchanged. System-exclusive start and end keep the running status.
pub proof fn law_system_common_ignored(s: ParserState, byte: u8)
    requires
        0xF1 <= byte <= 0xF6,
    ensures
        next_state(s, byte) == s,
        event_of(s, byte) is None,
        next_state(s, 0xF0).running_status == s.running_status,
        next_state(s, 0xF7).running_status == s.running_status,
        next_state(s, 0xF7).stage == ParseState::Idle,
{
}

impl<U> View for MidiParser<U> {
    type V = ParserState;

    closed spec fn view(&self) -> ParserState {
        ParserState {
            stage: self.state,
            status: self.status,
            data1: self.data1,
            channel: self.channel,
            running_status: self.running_status,
            sysex: self.sysex_buffer@.take(self.sysex_len as int),
        }
    }
}

impl<U> MidiParser<U> {
    /// Internal consistency: the capture length fits the buffer and the
    /// abstract state is well formed.
    pub closed spec fn wf(&self) -> bool {
        &&& self.sysex_len <= 128
        &&& state_wf(self@)
    }

    /// The serial port the parser reads from: the value of the public field
    /// `serial`. (Verus treats a struct with private fields as opaque outside
    /// its module, so neither an open spec function nor a contract may name
    /// the field itself; this closed function stands for it.)
    pub closed spec fn port(&self) -> U {
        self.serial
    }

    pub fn new(serial: U) -> (p: Self)
        ensures
            p.wf(),
            p@ == initial_state(),
            p.port() == serial,
    {
        let p = Self {
            state: ParseState::Idle,
            status: 0,
            data1: 0,
            channel: 0,
            running_status: 0,
            sysex_buffer: [0; 128],
            sysex_len: 0,
            serial,
        };
        assert(p@.sysex =~= Seq::<u8>::empty());
        p
    }

    /// Parse a single MIDI byte
    pub fn parse_byte(&mut self, byte: u8) -> (r: Option<MidiEvent>)
        requires
            old(self).wf(),
        ensures
            final(self).wf(),
            final(self)@ == next_state(old(self)@, byte),
            emits(old(self)@, byte, r),
            final(self).port() == old(self).port(),
    {
        // System Real-Time messages (can appear anywhere)
        if byte >= 0xF8 {
            return if byte == 0xF8 {
                Some(MidiEvent::TimingClock)
            } else if byte == 0xFA {
                Some(MidiEvent::Start)
            } else if byte == 0xFB {
                Some(MidiEvent::Continue)
            } else if byte == 0xFC {
                Some(MidiEvent::Stop)
            } else if byte == 0xFE {
                Some(MidiEvent::ActiveSensing)
            } else if byte == 0xFF {
                Some(MidiEvent::Reset)
            } else {
                None
            };
        }
        // Status byte
        if byte & 0x80 != 0 {
            assert(byte & 0x80 != 0 ==> byte >= 0x80) by (bit_vector);
            if byte == 0xF0 {
                // Start of SysEx
                self.state = ParseState::SysEx;
                self.sysex_len = 0;
                assert(self@.sysex =~= Seq::<u8>::empty());
                return None;
            } else if byte == 0xF7 {
                // End of SysEx
                self.state = ParseState::Idle;
                return Some(self.sysex_event());
            } else if byte >= 0xF1 {
                // System Common message (single byte)
                return None;
            }
            // Channel message
            assert(byte & 0xF0 == status_of(byte)) by (bit_vector);
            assert(byte & 0x0F == byte % 16) by (bit_vector);
            self.status = byte & 0xF0;
            self.channel = byte & 0x0F;
            self.running_status = byte;
            self.state = ParseState::Data1;
            return None;
        }
        assert(byte & 0x80 == 0 ==> byte < 0x80) by (bit_vector);
        // Data byte
        match self.state {
            ParseState::Idle => {
                // Running status - use previous status
                if self.running_status != 0 {
                    let rs = self.running_status;
                    assert(rs & 0xF0 == status_of(rs)) by (bit_vector);
                    assert(rs & 0x0F == rs % 16) by (bit_vector);
                    self.status = rs & 0xF0;
                    self.channel = rs & 0x0F;
                    self.data1 = byte;
                    // Program Change and Channel Pressure carry a single data
                    // byte; emit immediately instead of waiting for a second.
                    if self.status == 0xC0 || self.status == 0xD0 {
                        return self.parse_message();
                    }
                    self.state = ParseState::Data2;
                }
                None
            },
            ParseState::Data1 => {
                self.data1 = byte;
                if self.status == 0xC0 || self.status == 0xD0 {
                    // Program Change or Channel Pressure (1 data byte)
                    self.state = ParseState::Idle;
                    self.parse_message()
                } else {
                    self.state = ParseState::Data2;
                    None
                }
            },
            ParseState::Data2 => {
                self.state = ParseState::Idle;
                self.parse_message_with_data2(byte)
            },
            ParseState::SysEx => {
                if self.sysex_len < 128 {
                    let ghost old_sysex = self@.sysex;
                    let i = self.sysex_len;
                    self.sysex_buffer[i] = byte;
                    self.sysex_len = i + 1;
                    assert(self@.sysex =~= old_sysex.push(byte));
                }
                None
            },
        }
    }

    /// The system-exclusive event for the bytes captured so far.
    fn sysex_event(&self) -> (e: MidiEvent)
        requires
            self.wf(),
        ensures
            is_sysex_event(Some(e), self@.sysex),
    {
        let mut data = [0u8; 16];
        let len = if self.sysex_len < 16 { self.sysex_len } else { 16 };
        let mut i: usize = 0;
        while i < len
            invariant
                len <= 16,
                len <= self.sysex_len <= 128,
                i <= len,
                len == sysex_event_len(self@.sysex),
                forall|j: int| 0 <= j < i ==> data@[j] == self@.sysex[j],
                forall|j: int| i <= j < 16 ==> data@[j] == 0,
            decreases len - i,
        {
            data[i] = self.sysex_buffer[i];
            i = i + 1;
        }
        assert(data@ =~= sysex_payload(self@.sysex));
        MidiEvent::SysEx { data, len: len as u8 }
    }

    fn parse_message(&self) -> (r: Option<MidiEvent>)
        ensures
            r == single_event(self.status, self.channel, self.data1),
    {
        if self.status == 0xC0 {
            Some(MidiEvent::ProgramChange { channel: self.channel, program: self.data1 })
        } else if self.status == 0xD0 {
            Some(MidiEvent::ChannelPressure { channel: self.channel, pressure: self.data1 })
        } else {
            None
        }
    }

    fn parse_message_with_data2(&self, data2: u8) -> (r: Option<MidiEvent>)
        requires
            self.data1 < 0x80,
            data2 < 0x80,
        ensures
            r == pair_event(self.status, self.channel, self.data1, data2),
    {
        let status = self.status;
        if status == 0x80 {
            Some(MidiEvent::NoteOff { channel: self.channel, note: self.data1, velocity: data2 })
        } else if status == 0x90 {
            if data2 == 0 {
                Some(MidiEvent::NoteOff { channel: self.channel, note: self.data1, velocity: 0 })
            } else {
                Some(MidiEvent::NoteOn { channel: self.channel, note: self.data1, velocity: data2 })
            }
        } else if status == 0xA0 {
            Some(MidiEvent::Aftertouch { channel: self.channel, note: self.data1, pressure: data2 })
        } else if status == 0xB0 {
            Some(MidiEvent::ControlChange { channel: self.channel, controller: self.data1, value: data2 })
        } else if status == 0xE0 {
            let d1 = self.data1;
            assert(((data2 as i16) << 7 | (d1 as i16)) == 128 * data2 + d1) by (bit_vector)
                requires data2 < 0x80, d1 < 0x80;
            let bend = ((data2 as i16) << 7 | (d1 as i16)) - 8192;
            Some(MidiEvent::PitchBend { channel: self.channel, value: bend })
        } else {
            None
        }
    }
}

} // verus!
