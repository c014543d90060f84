use vstd::prelude::*;

verus! {

/// The two CHIP-8 countdown timers. Both count down once per tick
/// (about 60 Hz) and stop at zero.
#[derive(Clone, Copy, Debug, PartialEq, Eq, Structural)]
pub struct Timers {
    pub delay: u8,
    pub sound: u8,
}

/// One step of a countdown timer: down by one, never below zero.
pub open spec fn count_down(v: u8) -> u8 {
    if v == 0 {
        0
    } else {
        (v - 1) as u8
    }
}

/// Both timers after `n` ticks.
pub open spec fn after_ticks(t: Timers, n: nat) -> Timers
    decreases n,
{
    if n == 0 {
        t
    } else {
        let p = after_ticks(t, (n - 1) as nat);
        Timers { delay: count_down(p.delay), sound: count_down(p.sound) }
    }
}

impl Timers {
    /// Both timers at zero.
    pub fn new() -> (r: Timers)
        ensures
            r.delay == 0,
            r.sound == 0,
    {
        Timers { delay: 0, sound: 0 }
    }

    /// Advances both timers by one tick.
    pub fn tick(&mut self)
        ensures
            final(self).delay == count_down(old(self).delay),
            final(self).sound == count_down(old(self).sound),
            *final(self) == after_ticks(*old(self), 1),
    {
        self.delay = self.delay.saturating_sub(1);
        self.sound = self.sound.saturating_sub(1);
        assert(after_ticks(*old(self), 0) == *old(self));
    }
}

/// After `n` ticks with no writes in between, a timer holds its old value less
/// `n`, or zero once that would go below zero.
pub proof fn lemma_after_ticks(t: Timers, n: nat)
    ensures
        after_ticks(t, n).delay == (if t.delay >= n { t.delay - n } else { 0 }),
        after_ticks(t, n).sound == (if t.sound >= n { t.sound - n } else { 0 }),
    decreases n,
{
    if n > 0 {
        lemma_after_ticks(t, (n - 1) as nat);
    }
}

/// Timer values never rise between two observations with only ticks between
/// them: the later observation is at most the earlier one.
pub proof fn lemma_ticks_never_increase(t: Timers, m: nat, n: nat)
    requires
        m <= n,
    ensures
        after_ticks(t, n).delay <= after_ticks(t, m).delay,
        after_ticks(t, n).sound <= after_ticks(t, m).sound,
{
    lemma_after_ticks(t, m);
    lemma_after_ticks(t, n);
}

} // verus!
