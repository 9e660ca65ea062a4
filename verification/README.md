# Voltshark

Polyphonic synthesizer firmware for the STM32F407, with its hardware-independent
core verified in Verus.

- `src/` — the verified library:
  - `midi` — a minimal channel-message decoder; `midi::parser` — the full
    byte-stream parser (running status, real-time bytes, system exclusive),
    specified as a state machine (`next_state`, `event_of`) with laws about
    whole byte sequences; `midi::parser::constants` — controller numbers.
  - `audio::i2s` — the I2S ring buffer and the software capture buffer.
  - `synth::dsp` — the ADSR stage machine, the delay line's ring buffer,
    the noise generator's integer step.
  - `synth::engine` — voice allocation and stealing, note-off selection,
    controller routing, patch-bank selection.
  - `envelope`, `filter` — stage and mode types of the earlier envelope and
    ladder filter.
  - `control` — the main loop's LED heartbeat and patch rotation.
- `app/` — the firmware: hardware bring-up, the main loop, serial polling,
  and the floating-point sample path (oscillators, filters, envelope levels,
  mixing), which calls into the library for every integer decision.
- `tests/` — tests of the library.
