//! The integer side of the synth: envelope stage machines, delay-line
//! indexing, voice allocation, patch selection and controller routing.
pub mod dsp;
pub mod engine;
