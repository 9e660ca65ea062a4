//! Decisions of the firmware's main loop that do not touch hardware: the
//! status-LED heartbeat and the automatic patch rotation it drives.
use vstd::prelude::*;
use crate::synth::engine::PATCH_COUNT;

verus! {

/// System-timer ticks between two LED toggles.
pub const BLINK_INTERVAL_TICKS: u32 = 16_000_000;

/// LED toggles between two automatic patch changes (about ten seconds).
pub const BLINKS_PER_PATCH: u32 = 20;

/// What the main loop should do after reading the system timer.
#[derive(Debug, Clone, Copy, PartialEq, Eq)]
pub struct HeartbeatAction {
    /// Toggle the status LED.
    pub toggle_led: bool,
    /// Switch the synth to this patch.
    pub select_patch: Option<usize>,
}

/// The heartbeat's state: the tick of the last toggle, toggles since the
/// last patch change, and the patch last selected.
pub struct Heartbeat {
    last_tick: u32,
    patch_change_timer: u32,
    current_patch: usize,
}

/// Ticks from `last` to `now` on the wrapping 32-bit system timer.
pub open spec fn elapsed(now: u32, last: u32) -> int {
    (now - last) % 0x1_0000_0000
}

/// Elapsed ticks across the wrapping 32-bit timer: the plain difference, or
/// once the timer has wrapped, the difference plus 2^32.
pub proof fn law_elapsed_wraps(now: u32, last: u32)
    ensures
        elapsed(now, last) == if now >= last { now - last } else { now + 0x1_0000_0000 - last },
{
}

impl Heartbeat {
    #[verifier::type_invariant]
    closed spec fn inv(self) -> bool {
        &&& self.patch_change_timer < BLINKS_PER_PATCH
        &&& self.current_patch < PATCH_COUNT
    }

    /// Tick of the last LED toggle.
    pub closed spec fn last(&self) -> u32 {
        self.last_tick
    }

    /// Toggles since the last patch change.
    pub closed spec fn blinks(&self) -> u32 {
        self.patch_change_timer
    }

    /// The patch last selected by the rotation.
    pub closed spec fn patch(&self) -> usize {
        self.current_patch
    }

    pub fn new() -> (h: Self)
        ensures
            h.last() == 0,
            h.blinks() == 0,
            h.patch() == 0,
    {
        Heartbeat { last_tick: 0, patch_change_timer: 0, current_patch: 0 }
    }

    /// React to the system timer reading `tick`. Once more than
    /// `BLINK_INTERVAL_TICKS` have passed since the last toggle, the LED
    /// toggles; every `BLINKS_PER_PATCH`-th toggle also selects the next
    /// patch, wrapping around the bank.
    pub fn on_tick(&mut self, tick: u32) -> (a: HeartbeatAction)
        ensures
            ({
                let due = (elapsed(tick, old(self).last()) > BLINK_INTERVAL_TICKS);
                let rotate = (due && old(self).blinks() + 1 >= BLINKS_PER_PATCH);
                &&& a.toggle_led == due
                &&& !due ==> {
                    &&& final(self).last() == old(self).last()
                    &&& final(self).blinks() == old(self).blinks()
                    &&& final(self).patch() == old(self).patch()
                    &&& a.select_patch is None
                }
                &&& due ==> final(self).last() == tick
                &&& due && !rotate ==> {
                    &&& final(self).blinks() == old(self).blinks() + 1
                    &&& final(self).patch() == old(self).patch()
                    &&& a.select_patch is None
                }
                &&& rotate ==> {
                    &&& final(self).blinks() == 0
                    &&& final(self).patch() == (old(self).patch() + 1) % (PATCH_COUNT as int)
                    &&& a.select_patch == Some(final(self).patch())
                }
            }),
    {
        proof { use_type_invariant(&*self); }
        if tick.wrapping_sub(self.last_tick) > BLINK_INTERVAL_TICKS {
            self.last_tick = tick;
            let blinks = self.patch_change_timer + 1;
            if blinks >= BLINKS_PER_PATCH {
                self.patch_change_timer = 0;
                self.current_patch = (self.current_patch + 1) % PATCH_COUNT;
                HeartbeatAction { toggle_led: true, select_patch: Some(self.current_patch) }
            } else {
                self.patch_change_timer = blinks;
                HeartbeatAction { toggle_led: true, select_patch: None }
            }
        } else {
            HeartbeatAction { toggle_led: false, select_patch: None }
        }
    }
}

} // verus!
