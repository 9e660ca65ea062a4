//! Stage machine of the linear ADSR envelope. Levels are floating point and
//! are computed by the firmware; the stage order is decided here.
use vstd::prelude::*;

verus! {

/// Stages of the envelope.
#[derive(Debug, Clone, Copy, PartialEq, Eq, Structural)]
pub enum EnvelopeState {
    Idle,
    Attack,
    Decay,
    Sustain,
    Release,
}

/// The stage after the level crosses the end of `s`'s segment: attack
/// reaching full level moves to decay, decay reaching the sustain level
/// holds at sustain, release reaching zero goes idle.
pub open spec fn envelope_stage_after(s: EnvelopeState) -> EnvelopeState {
    match s {
        EnvelopeState::Attack => EnvelopeState::Decay,
        EnvelopeState::Decay => EnvelopeState::Sustain,
        EnvelopeState::Release => EnvelopeState::Idle,
        EnvelopeState::Sustain => EnvelopeState::Sustain,
        EnvelopeState::Idle => EnvelopeState::Idle,
    }
}

impl EnvelopeState {
    /// Whether the envelope is silent and finished.
    pub fn is_idle(self) -> (r: bool)
        ensures
            r == (self == EnvelopeState::Idle),
    {
        self == EnvelopeState::Idle
    }

    /// The stage that follows when this stage's segment ends.
    pub fn after_segment(self) -> (r: EnvelopeState)
        ensures
            r == envelope_stage_after(self),
    {
        match self {
            EnvelopeState::Attack => EnvelopeState::Decay,
            EnvelopeState::Decay => EnvelopeState::Sustain,
            EnvelopeState::Release => EnvelopeState::Idle,
            EnvelopeState::Sustain => EnvelopeState::Sustain,
            EnvelopeState::Idle => EnvelopeState::Idle,
        }
    }
}

/// Only a finished release makes the envelope idle; sustain holds until
/// released.
pub proof fn law_only_release_ends(s: EnvelopeState)
    ensures
        envelope_stage_after(s) == EnvelopeState::Idle <==> (s == EnvelopeState::Release || s
            == EnvelopeState::Idle),
        envelope_stage_after(EnvelopeState::Sustain) == EnvelopeState::Sustain,
{
}

/// The stage order of the envelope: attack ends in decay, decay in sustain,
/// release in idle; sustain and idle stay where they are.
pub proof fn law_envelope_segment_order()
    ensures
        envelope_stage_after(EnvelopeState::Attack) == EnvelopeState::Decay,
        envelope_stage_after(EnvelopeState::Decay) == EnvelopeState::Sustain,
        envelope_stage_after(EnvelopeState::Release) == EnvelopeState::Idle,
        envelope_stage_after(EnvelopeState::Sustain) == EnvelopeState::Sustain,
        envelope_stage_after(EnvelopeState::Idle) == EnvelopeState::Idle,
{
}

} // verus!
