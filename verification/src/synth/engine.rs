//! Polyphonic engine decisions: which voice a new note takes, which voices
//! a note-off releases, what a controller number controls, and which patch
//! of the bank is selected.
use vstd::prelude::*;
use crate::midi::parser::constants::{
    CC_ALL_NOTES_OFF, CC_CUTOFF, CC_MODULATION, CC_PAN, CC_RESET_ALL_CONTROLLERS, CC_RESONANCE,
    CC_VOLUME,
};

verus! {

/// Number of voices the engine plays at once.
pub const VOICE_COUNT: usize = 16;

/// Number of patches in the bank.
pub const PATCH_COUNT: usize = 5;

/// The level key from which the quietest-voice search starts: the IEEE-754
/// bits of `f32::MAX`. Keys are the bits of non-negative envelope levels,
/// whose order as integers is their order as levels.
pub const QUIET_SEARCH_START: u32 = 0x7F7F_FFFF;

/// `i` is the first voice that is free.
pub open spec fn is_first_free(busy: Seq<bool>, i: int) -> bool {
    &&& 0 <= i < busy.len()
    &&& !busy[i]
    &&& forall|j: int| 0 <= j < i ==> #[trigger] busy[j]
}

/// `i` is the first voice whose level key is the least of all, and below the
/// search start.
pub open spec fn is_first_quietest(levels: Seq<u32>, i: int) -> bool {
    &&& 0 <= i < levels.len()
    &&& levels[i] < QUIET_SEARCH_START
    &&& forall|j: int| 0 <= j < levels.len() ==> levels[i] <= #[trigger] levels[j]
    &&& forall|j: int| 0 <= j < i ==> levels[i] < #[trigger] levels[j]
}

/// The voice a new note goes to. `busy[i]` says voice `i` is sounding
/// (active or with a running envelope); `levels[i]` orders voice `i`'s
/// envelope level, quieter first. The first free voice is taken; when every
/// voice is busy, the quietest is stolen (the first of equally quiet ones);
/// voice 0 when no level lies below the search start.
pub fn find_free_voice(busy: &[bool], levels: &[u32]) -> (r: usize)
    requires
        busy.len() == levels.len(),
        busy.len() > 0,
    ensures
        r < busy.len(),
        (exists|i: int| 0 <= i < busy@.len() && !busy@[i]) ==> is_first_free(busy@, r as int),
        (forall|i: int| 0 <= i < busy@.len() ==> busy@[i]) ==> {
            if exists|i: int| 0 <= i < levels@.len() && levels@[i] < QUIET_SEARCH_START {
                is_first_quietest(levels@, r as int)
            } else {
                r == 0
            }
        },
        (exists|i: int| 0 <= i < busy@.len() && !busy@[i]) ==> {
            &&& !busy@[r as int]
            &&& forall|j: int| 0 <= j < r ==> busy@[j]
        },
        (forall|i: int| 0 <= i < busy@.len() ==> busy@[i]) && (exists|i: int|
            0 <= i < levels@.len() && levels@[i] < QUIET_SEARCH_START) ==> {
            &&& forall|j: int| 0 <= j < levels@.len() ==> levels@[r as int] <= levels@[j]
            &&& forall|j: int| 0 <= j < r ==> levels@[r as int] < levels@[j]
        },
{
    // First, try to find an inactive voice
    let mut i: usize = 0;
    while i < busy.len()
        invariant
            i <= busy.len(),
            forall|j: int| 0 <= j < i ==> #[trigger] busy@[j],
        decreases busy.len() - i,
    {
        if !busy[i] {
            return i;
        }
        i = i + 1;
    }
    // Steal the voice with the lowest envelope value (quietest = best to steal)
    let mut min_env: u32 = QUIET_SEARCH_START;
    let mut min_index: usize = 0;
    let mut k: usize = 0;
    while k < levels.len()
        invariant
            k <= levels.len(),
            busy.len() == levels.len(),
            min_index < levels.len(),
            min_env <= QUIET_SEARCH_START,
            forall|j: int| 0 <= j < k ==> min_env <= #[trigger] levels@[j],
            min_env < QUIET_SEARCH_START ==> {
                &&& min_index < k
                &&& levels@[min_index as int] == min_env
                &&& forall|j: int| 0 <= j < min_index ==> min_env < #[trigger] levels@[j]
            },
            min_env == QUIET_SEARCH_START ==> min_index == 0,
        decreases levels.len() - k,
    {
        let env = levels[k];
        if env < min_env {
            min_env = env;
            min_index = k;
        }
        k = k + 1;
    }
    proof {
        if exists|i: int| 0 <= i < levels@.len() && levels@[i] < QUIET_SEARCH_START {
            let w = choose|i: int| 0 <= i < levels@.len() && levels@[i] < QUIET_SEARCH_START;
            assert(min_env <= levels@[w]);
        }
    }
    min_index
}

/// The voices a note-off for `note` releases: every active voice holding
/// that note, in voice order.
pub fn voices_to_release(active: &[bool], notes: &[u8], note: u8) -> (r: Vec<usize>)
    requires
        active.len() == notes.len(),
    ensures
        forall|k: int| 0 <= k < r@.len() ==> #[trigger] r@[k] < active.len() && active@[r@[k] as int]
            && notes@[r@[k] as int] == note,
        forall|k1: int, k2: int| 0 <= k1 < k2 < r@.len() ==> r@[k1] < r@[k2],
        forall|i: int|
            0 <= i < active.len() && #[trigger] active@[i] && notes@[i] == note ==> r@.contains(
                i as usize,
            ),
{
    let mut r: Vec<usize> = Vec::new();
    let mut i: usize = 0;
    while i < active.len()
        invariant
            i <= active.len(),
            active.len() == notes.len(),
            forall|k: int| 0 <= k < r@.len() ==> #[trigger] r@[k] < i && active@[r@[k] as int]
                && notes@[r@[k] as int] == note,
            forall|k1: int, k2: int| 0 <= k1 < k2 < r@.len() ==> r@[k1] < r@[k2],
            forall|j: int| 0 <= j < i && #[trigger] active@[j] && notes@[j] == note ==> r@.contains(j as usize),
        decreases active.len() - i,
    {
        if active[i] && notes[i] == note {
            let ghost before = r@;
            r.push(i);
            proof {
                assert forall|j: int| 0 <= j < i + 1 && #[trigger] active@[j] && notes@[j] == note implies r@.contains(
                    j as usize,
                ) by {
                    if j < i {
                        let k = choose|k: int| 0 <= k < before.len() && before[k] == j as usize;
                        assert(r@[k] == j as usize);
                    } else {
                        assert(r@[r@.len() - 1] == j as usize);
                    }
                }
            }
        }
        i = i + 1;
    }
    r
}

/// What a control-change message controls.
#[derive(Debug, Clone, Copy, PartialEq, Eq, Structural)]
pub enum ControlAction {
    Modulation,
    Volume,
    Pan,
    Resonance,
    Cutoff,
    ResetAllControllers,
    AllNotesOff,
    Ignore,
}

/// The action of controller number `controller`.
pub open spec fn action_of(controller: u8) -> ControlAction {
    if controller == CC_MODULATION {
        ControlAction::Modulation
    } else if controller == CC_VOLUME {
        ControlAction::Volume
    } else if controller == CC_PAN {
        ControlAction::Pan
    } else if controller == CC_RESONANCE {
        ControlAction::Resonance
    } else if controller == CC_CUTOFF {
        ControlAction::Cutoff
    } else if controller == CC_RESET_ALL_CONTROLLERS {
        ControlAction::ResetAllControllers
    } else if controller == CC_ALL_NOTES_OFF {
        ControlAction::AllNotesOff
    } else {
        ControlAction::Ignore
    }
}

/// Controller routing: CC 1 is modulation, 7 volume, 10 pan, 71
/// resonance, 74 cutoff, 121 reset all controllers, 123 all notes off, each
/// controller only its own action; every other controller is ignored.
pub proof fn law_controller_routing(c: u8)
    ensures
        action_of(c) == ControlAction::Modulation <==> c == 1,
        action_of(c) == ControlAction::Volume <==> c == 7,
        action_of(c) == ControlAction::Pan <==> c == 10,
        action_of(c) == ControlAction::Resonance <==> c == 71,
        action_of(c) == ControlAction::Cutoff <==> c == 74,
        action_of(c) == ControlAction::ResetAllControllers <==> c == 121,
        action_of(c) == ControlAction::AllNotesOff <==> c == 123,
        action_of(c) == ControlAction::Ignore <==> !(c == 1 || c == 7 || c == 10 || c == 71 || c == 74 || c
            == 121 || c == 123),
{
}

/// Which parameter a control-change message for `controller` sets: CC 1
/// modulation, 7 volume, 10 pan, 71 resonance, 74 cutoff, 121 reset all
/// controllers, 123 all notes off; every other controller is ignored.
pub fn control_action(controller: u8) -> (a: ControlAction)
    ensures
        a == action_of(controller),
{
    if controller == CC_MODULATION {
        ControlAction::Modulation
    } else if controller == CC_VOLUME {
        ControlAction::Volume
    } else if controller == CC_PAN {
        ControlAction::Pan
    } else if controller == CC_RESONANCE {
        ControlAction::Resonance
    } else if controller == CC_CUTOFF {
        ControlAction::Cutoff
    } else if controller == CC_RESET_ALL_CONTROLLERS {
        ControlAction::ResetAllControllers
    } else if controller == CC_ALL_NOTES_OFF {
        ControlAction::AllNotesOff
    } else {
        ControlAction::Ignore
    }
}

/// The name of patch `i` of the bank.
pub open spec fn patch_name(i: int) -> Seq<char> {
    if i == 0 {
        "Bass"@
    } else if i == 1 {
        "Lead"@
    } else if i == 2 {
        "Pad"@
    } else if i == 3 {
        "Drum"@
    } else {
        "Pluck"@
    }
}

/// The selected patch of the bank.
pub struct PatchBank {
    current: usize,
}

impl PatchBank {
    #[verifier::type_invariant]
    closed spec fn inv(self) -> bool {
        self.current < PATCH_COUNT
    }

    /// Index of the selected patch.
    pub closed spec fn selected(&self) -> nat {
        self.current as nat
    }

    /// A bank with the first patch selected.
    pub fn new() -> (b: Self)
        ensures
            b.selected() == 0,
    {
        PatchBank { current: 0 }
    }

    /// Select patch `index`, wrapping around the bank; returns the index
    /// selected.
    pub fn select(&mut self, index: usize) -> (r: usize)
        ensures
            r == index % PATCH_COUNT,
            final(self).selected() == r,
    {
        let i = index % PATCH_COUNT;
        self.current = i;
        i
    }

    /// Select the next patch, wrapping after the last; returns the index selected.
    pub fn next(&mut self) -> (r: usize)
        ensures
            r == next_index(old(self).selected()),
            final(self).selected() == r,
    {
        proof { use_type_invariant(&*self); }
        self.select(self.current + 1)
    }

    /// Index of the selected patch.
    pub fn current(&self) -> (r: usize)
        ensures
            r == self.selected(),
            r < PATCH_COUNT,
    {
        proof { use_type_invariant(self); }
        self.current
    }

    /// Name of the selected patch.
    pub fn name(&self) -> (r: &'static str)
        ensures
            r@ == patch_name(self.selected() as int),
    {
        let i = self.current;
        if i == 0 {
            "Bass"
        } else if i == 1 {
            "Lead"
        } else if i == 2 {
            "Pad"
        } else if i == 3 {
            "Drum"
        } else {
            "Pluck"
        }
    }
}

/// The patch selected by `next` after patch `p`.
pub open spec fn next_index(p: nat) -> nat {
    (p + 1) % (PATCH_COUNT as nat)
}

/// `next` moves to the following patch of the five, and from the last back
/// to the first.
pub proof fn law_next_patch(p: nat)
    requires
        p < 5,
    ensures
        next_index(p) == if p == 4 { 0 } else { p + 1 },
{
}

/// Selecting patches cycles through the bank: `PATCH_COUNT` steps of
/// `next` return to the starting patch, and selecting `index` selects the
/// same patch as `index + PATCH_COUNT`.
pub proof fn law_patch_cycle(start: nat, index: nat)
    requires
        start < PATCH_COUNT,
    ensures
        next_index(next_index(next_index(next_index(next_index(start))))) == start,
        (index + PATCH_COUNT as nat) % (PATCH_COUNT as nat) == index % (PATCH_COUNT as nat),
{
}

} // verus!
