//! Audio output buffering.
pub mod i2s;
