//! MIDI constants: the control-change numbers the synth responds to.
use vstd::prelude::*;

verus! {

pub const CC_MODULATION: u8 = 1;
pub const CC_VOLUME: u8 = 7;
pub const CC_PAN: u8 = 10;
pub const CC_RESONANCE: u8 = 71;
pub const CC_CUTOFF: u8 = 74;
pub const CC_RESET_ALL_CONTROLLERS: u8 = 121;
pub const CC_ALL_NOTES_OFF: u8 = 123;

} // verus!
