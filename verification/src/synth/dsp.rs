//! DSP building blocks: the ADSR stage machine and the delay line's ring
//! buffer. The sample arithmetic itself is floating point and lives with
//! the firmware.
use vstd::prelude::*;

verus! {

/// Stages of an ADSR envelope.
#[derive(Debug, Clone, Copy, PartialEq, Eq, Structural)]
pub enum ADSRState {
    Idle,
    Attack,
    Decay,
    Sustain,
    Release,
}

/// The stage an envelope moves to when the timed segment of `s` completes:
/// attack rises into decay, decay settles into sustain, release falls to
/// idle. Sustain and idle have no timed segment.
pub open spec fn stage_after(s: ADSRState) -> ADSRState {
    match s {
        ADSRState::Attack => ADSRState::Decay,
        ADSRState::Decay => ADSRState::Sustain,
        ADSRState::Release => ADSRState::Idle,
        ADSRState::Sustain => ADSRState::Sustain,
        ADSRState::Idle => ADSRState::Idle,
    }
}

/// The stage after a note release: any sounding stage enters release; an
/// idle envelope stays idle.
pub open spec fn stage_on_release(s: ADSRState) -> ADSRState {
    if s == ADSRState::Idle {
        ADSRState::Idle
    } else {
        ADSRState::Release
    }
}

impl ADSRState {
    /// Whether the envelope is sounding (any stage but idle).
    pub fn is_active(self) -> (r: bool)
        ensures
            r == (self != ADSRState::Idle),
    {
        self != ADSRState::Idle
    }

    /// The stage that follows when this stage's timed segment completes.
    pub fn after_segment(self) -> (r: ADSRState)
        ensures
            r == stage_after(self),
    {
        match self {
            ADSRState::Attack => ADSRState::Decay,
            ADSRState::Decay => ADSRState::Sustain,
            ADSRState::Release => ADSRState::Idle,
            ADSRState::Sustain => ADSRState::Sustain,
            ADSRState::Idle => ADSRState::Idle,
        }
    }

    /// The stage after a note release.
    pub fn on_release(self) -> (r: ADSRState)
        ensures
            r == stage_on_release(self),
    {
        if self != ADSRState::Idle {
            ADSRState::Release
        } else {
            ADSRState::Idle
        }
    }
}

/// Releasing any sounding stage enters release; releasing an idle envelope
/// leaves it idle.
pub proof fn law_release_enters_release(s: ADSRState)
    ensures
        s != ADSRState::Idle ==> stage_on_release(s) == ADSRState::Release,
        s == ADSRState::Idle ==> stage_on_release(s) == ADSRState::Idle,
{
}

/// The stage order of an envelope: attack completes into decay, decay into
/// sustain, release into idle; sustain and idle stay where they are.
pub proof fn law_segment_order()
    ensures
        stage_after(ADSRState::Attack) == ADSRState::Decay,
        stage_after(ADSRState::Decay) == ADSRState::Sustain,
        stage_after(ADSRState::Release) == ADSRState::Idle,
        stage_after(ADSRState::Sustain) == ADSRState::Sustain,
        stage_after(ADSRState::Idle) == ADSRState::Idle,
{
}

/// The stage reached after `n` segment completions from `s`.
pub open spec fn stage_after_n(s: ADSRState, n: nat) -> ADSRState
    decreases n,
{
    if n == 0 {
        s
    } else {
        stage_after(stage_after_n(s, (n - 1) as nat))
    }
}

/// A triggered envelope passes through decay into sustain and holds there
/// until released.
pub proof fn law_triggered_envelope_holds_sustain(n: nat)
    requires
        n >= 2,
    ensures
        stage_after_n(ADSRState::Attack, 1) == ADSRState::Decay,
        stage_after_n(ADSRState::Attack, n) == ADSRState::Sustain,
    decreases n,
{
    reveal_with_fuel(stage_after_n, 3);
    if n > 2 {
        law_triggered_envelope_holds_sustain((n - 1) as nat);
    }
}

/// A released envelope finishes idle after its release segment, and stays
/// idle; releasing an idle envelope has no effect.
pub proof fn law_release_ends_idle(s: ADSRState, n: nat)
    requires
        n >= 1,
    ensures
        s != ADSRState::Idle ==> stage_after_n(stage_on_release(s), n) == ADSRState::Idle,
        stage_on_release(ADSRState::Idle) == ADSRState::Idle,
    decreases n,
{
    reveal_with_fuel(stage_after_n, 2);
    if n > 1 {
        law_release_ends_idle(s, (n - 1) as nat);
    }
}

/// One step of the noise oscillator's linear congruential generator:
/// `seed * 1103515245 + 12345`, modulo 2^32.
pub fn noise_lcg(seed: u32) -> (r: u32)
    ensures
        r == (seed * 1103515245 + 12345) % 0x1_0000_0000,
{
    let m = seed.wrapping_mul(1103515245);
    let r = m.wrapping_add(12345);
    assert(r == (seed * 1103515245 + 12345) % 0x1_0000_0000) by (nonlinear_arith)
        requires
            m == (seed * 1103515245) % 0x1_0000_0000,
            r == (m + 12345) % 0x1_0000_0000,
    ;
    r
}

/// Length of a delay line's ring buffer, in samples.
pub const DELAY_LEN: usize = 8192;

/// Delay applied by a new delay line, in samples (about 50 ms at 44.1 kHz).
pub const DEFAULT_DELAY_SAMPLES: usize = 2205;

/// A fixed-length ring of past samples with a read tap `delay` samples
/// behind the write position.
pub struct DelayLine<T: Copy> {
    buffer: [T; 8192],
    write_pos: usize,
    delay_samples: usize,
}

/// Where, in a history ordered oldest first, the tap of a line delayed by
/// `delay` samples reads: `delay` samples back from the next write, or (for
/// zero delay) the oldest sample, a whole ring ago.
pub open spec fn tap_index(delay: int) -> int {
    (DELAY_LEN - delay) % (DELAY_LEN as int)
}

/// The history after writing `x`: the oldest sample leaves, `x` arrives.
pub open spec fn shift_in<T>(history: Seq<T>, x: T) -> Seq<T> {
    history.drop_first().push(x)
}

/// The history after writing each sample of `xs` in turn.
pub open spec fn shift_in_all<T>(history: Seq<T>, xs: Seq<T>) -> Seq<T>
    decreases xs.len(),
{
    if xs.len() == 0 {
        history
    } else {
        shift_in(shift_in_all(history, xs.drop_last()), xs.last())
    }
}

impl<T: Copy> DelayLine<T> {
    #[verifier::type_invariant]
    closed spec fn inv(self) -> bool {
        &&& self.write_pos < DELAY_LEN
        &&& self.delay_samples < DELAY_LEN
    }

    /// The last `DELAY_LEN` samples written, oldest first.
    pub closed spec fn history(&self) -> Seq<T> {
        Seq::new(DELAY_LEN as nat, |i: int| self.buffer@[(self.write_pos + i) % (DELAY_LEN as int)])
    }

    /// The delay, in samples, between a write and the read that returns it.
    pub closed spec fn delay(&self) -> nat {
        self.delay_samples as nat
    }

    /// A line whose history is `fill` throughout, with the default delay.
    pub fn new(fill: T) -> (d: Self)
        ensures
            d.history() == Seq::new(DELAY_LEN as nat, |i: int| fill),
            d.delay() == DEFAULT_DELAY_SAMPLES,
    {
        let d = Self { buffer: [fill; 8192], write_pos: 0, delay_samples: 2205 };
        assert(d.history() =~= Seq::new(DELAY_LEN as nat, |i: int| fill));
        d
    }

    /// Set the delay, clamped to what the ring can hold.
    pub fn set_delay_samples(&mut self, samples: usize)
        ensures
            final(self).delay() == if samples < DELAY_LEN { samples as nat } else { (DELAY_LEN - 1) as nat },
            final(self).history() == old(self).history(),
    {
        proof { use_type_invariant(&*self); }
        self.delay_samples = if samples < DELAY_LEN - 1 { samples } else { DELAY_LEN - 1 };
    }

    /// The sample at the read tap.
    pub fn read(&self) -> (x: T)
        ensures
            self.history().len() == DELAY_LEN,
            x == self.history()[tap_index(self.delay() as int)],
    {
        proof { use_type_invariant(self); }
        let read_pos = if self.write_pos >= self.delay_samples {
            self.write_pos - self.delay_samples
        } else {
            self.buffer.len() - self.delay_samples + self.write_pos
        };
        proof {
            let w = self.write_pos as int;
            let d = self.delay_samples as int;
            let l = DELAY_LEN as int;
            let t = tap_index(d);
            if d == 0 {
                assert(t == 0);
                assert((w + t) % l == w);
            } else {
                assert(t == l - d);
                if w >= d {
                    assert((w + t) % l == w - d) by {
                        assert(w + t == (w - d) + l);
                        vstd::arithmetic::div_mod::lemma_mod_add_multiples_vanish(w - d, l);
                    }
                } else {
                    assert((w + t) % l == w + t);
                }
            }
        }
        self.buffer[read_pos]
    }

    /// Write the next sample.
    pub fn write(&mut self, x: T)
        ensures
            final(self).history() == shift_in(old(self).history(), x),
            final(self).delay() == old(self).delay(),
    {
        proof { use_type_invariant(&*self); }
        let ghost before = self.history();
        let ghost w = self.write_pos as int;
        let pos = self.write_pos;
        self.buffer[pos] = x;
        self.write_pos = (pos + 1) % 8192;
        proof {
            let l = DELAY_LEN as int;
            assert forall|i: int| 0 <= i < l implies #[trigger] self.history()[i] == shift_in(before, x)[i] by {
                let k = (w + 1) % l;
                if i < l - 1 {
                    if w + 1 + i < l {
                        assert((k + i) % l == w + 1 + i);
                    } else {
                        assert((k + i) % l == w + 1 + i - l) by {
                            vstd::arithmetic::div_mod::lemma_mod_add_multiples_vanish(w + 1 + i - l, l);
                        }
                        assert((w + (i + 1)) % l == w + 1 + i - l) by {
                            vstd::arithmetic::div_mod::lemma_mod_add_multiples_vanish(w + 1 + i - l, l);
                        }
                    }
                } else {
                    assert((k + i) % l == w) by {
                        if w + 1 < l {
                            vstd::arithmetic::div_mod::lemma_mod_add_multiples_vanish(w, l);
                        }
                    }
                }
            }
            assert(self.history() =~= shift_in(before, x));
        }
    }
}

/// Read-after-write: with a delay of `d` samples (0 < d < DELAY_LEN), a
/// sample written and followed by `d - 1` further writes is what the tap
/// reads next, so each input comes back exactly `d` samples later.
pub proof fn law_echo_after_delay<T>(history: Seq<T>, x: T, later: Seq<T>, d: int)
    requires
        history.len() == DELAY_LEN,
        0 < d < DELAY_LEN,
        later.len() == d - 1,
    ensures
        shift_in_all(shift_in(history, x), later)[tap_index(d)] == x,
{
    let h1 = shift_in(history, x);
    assert(h1.len() == DELAY_LEN);
    assert(h1[DELAY_LEN - 1] == x);
    lemma_shift_in_all_keeps_tail(h1, later);
    assert(tap_index(d) == DELAY_LEN - d);
    assert(shift_in_all(h1, later)[(DELAY_LEN - 1) - later.len()] == h1[DELAY_LEN - 1]);
}

/// After writing `xs`, the samples before them have moved `xs.len()` places
/// towards the oldest end.
pub proof fn lemma_shift_in_all_keeps_tail<T>(history: Seq<T>, xs: Seq<T>)
    requires
        xs.len() < history.len(),
    ensures
        shift_in_all(history, xs).len() == history.len(),
        forall|i: int|
            xs.len() <= i < history.len() ==> #[trigger] shift_in_all(history, xs)[i - xs.len()]
                == history[i],
    decreases xs.len(),
{
    if xs.len() > 0 {
        lemma_shift_in_all_keeps_tail(history, xs.drop_last());
        let prev = shift_in_all(history, xs.drop_last());
        assert forall|i: int| xs.len() <= i < history.len() implies #[trigger] shift_in_all(
            history,
            xs,
        )[i - xs.len()] == history[i] by {
            assert(prev[i - (xs.len() - 1)] == history[i]);
        }
    }
}

/// Where every sample sits after writing `xs`: position `j` holds the old
/// sample `j + xs.len()` while that is still inside the ring, and otherwise
/// the written sample `j + xs.len() - DELAY_LEN`.
pub proof fn lemma_shift_in_all_index<T>(history: Seq<T>, xs: Seq<T>, j: int)
    requires
        history.len() == DELAY_LEN,
        0 <= j < DELAY_LEN,
    ensures
        shift_in_all(history, xs).len() == DELAY_LEN,
        shift_in_all(history, xs)[j] == if j + xs.len() < DELAY_LEN {
            history[j + xs.len()]
        } else {
            xs[j + xs.len() - DELAY_LEN]
        },
    decreases xs.len(),
{
    if xs.len() > 0 {
        let init = xs.drop_last();
        lemma_shift_in_all_index(history, init, 0);
        if j < DELAY_LEN - 1 {
            lemma_shift_in_all_index(history, init, j + 1);
            if j + xs.len() >= DELAY_LEN {
                assert(init[j + 1 + init.len() - DELAY_LEN] == xs[j + xs.len() - DELAY_LEN]);
            }
        }
    }
}

/// The sequence of inputs of an impulse: `x` first, then `quiet` for the
/// remaining `n - 1` samples.
pub open spec fn impulse<T>(x: T, quiet: T, n: nat) -> Seq<T> {
    Seq::new(n, |k: int| if k == 0 { x } else { quiet })
}

/// Impulse response: on a line filled with `quiet` and delayed by `d`
/// samples (0 < d < DELAY_LEN), feeding an impulse `x` makes the tap read `x`
/// exactly after `d` writes and `quiet` after any other number of writes.
pub proof fn law_impulse_response<T>(quiet: T, x: T, n: nat, d: int)
    requires
        0 < d < DELAY_LEN,
    ensures
        shift_in_all(Seq::new(DELAY_LEN as nat, |i: int| quiet), impulse(x, quiet, n))[tap_index(d)]
            == if n == d { x } else { quiet },
{
    let h = Seq::new(DELAY_LEN as nat, |i: int| quiet);
    assert(tap_index(d) == DELAY_LEN - d);
    lemma_shift_in_all_index(h, impulse(x, quiet, n), DELAY_LEN - d);
}

} // verus!
