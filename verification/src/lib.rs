//! Voltshark: the hardware-independent core of a polyphonic synthesizer.
//!
//! The verified library holds the byte-level MIDI parsers, the sample ring
//! buffers that feed the DAC, the integer side of the synth (voice
//! allocation, patch selection, controller routing, envelope stage
//! machines, delay-line indexing) and the firmware's control decisions.
pub mod audio;
pub mod control;
pub mod envelope;
pub mod filter;
pub mod midi;
pub mod synth;
