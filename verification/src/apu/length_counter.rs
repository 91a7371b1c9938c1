use vstd::prelude::*;
use crate::bits::{wrap8, lemma_u8_facts};

verus! {

/// Counts up towards the channel's length limit; when it wraps to zero the channel
/// is switched off and the counter freezes until it is reloaded.
#[derive(Clone, Copy, Debug)]
pub struct LengthCounter {
    pub enabled: bool,
    pub length: u8,
    pub initial: u8,
    pub frozen: bool,
}

impl LengthCounter {
    /// The mask that keeps `length` inside the channel's range.
    pub open spec fn mask(self) -> u8 {
        wrap8(self.initial - 1)
    }

    /// One 256 Hz clock: the next state and whether the channel must be disabled.
    pub open spec fn spec_tick(self) -> (LengthCounter, bool) {
        if !self.enabled || self.frozen {
            (self, false)
        } else {
            let length = wrap8(self.length + 1) & self.mask();
            (LengthCounter { length, frozen: length == 0, ..self }, length == 0)
        }
    }

    /// The state after `n` clocks.
    pub open spec fn ticked(self, n: nat) -> LengthCounter
        decreases n,
    {
        if n == 0 {
            self
        } else {
            self.spec_tick().0.ticked((n - 1) as nat)
        }
    }

    /// Loading length `length`: the counter then expires after `initial - length` clocks.
    pub open spec fn spec_reload(self, length: u8) -> LengthCounter {
        LengthCounter { length: length & self.mask(), frozen: false, ..self }
    }

    /// A counter that is enabled and not frozen, limited to `initial` steps.
    pub fn new(initial: u8) -> (c: Self)
        ensures
            c.enabled,
            !c.frozen,
            c.length == 0,
            c.initial == initial,
    {
        Self { enabled: true, frozen: false, length: 0, initial }
    }

    /// The counter used by the square and noise channels: 64 steps.
    pub fn default() -> (c: Self)
        ensures
            c == LengthCounter::new_spec(64),
    {
        Self::new(64)
    }

    pub open spec fn new_spec(initial: u8) -> LengthCounter {
        LengthCounter { enabled: true, frozen: false, length: 0, initial }
    }

    pub fn reload(&mut self, length: u8)
        ensures
            *final(self) == old(self).spec_reload(length),
    {
        self.length = length & self.initial.wrapping_sub(1);
        self.unfreeze();
    }

    pub fn read_length(&self) -> (r: u8)
        ensures
            r == self.length,
    {
        self.length
    }

    pub fn unfreeze(&mut self)
        ensures
            *final(self) == (LengthCounter { frozen: false, ..*old(self) }),
    {
        self.frozen = false;
    }

    pub fn set_enabled(&mut self, enabled: bool)
        ensures
            *final(self) == (LengthCounter { enabled, ..*old(self) }),
    {
        self.enabled = enabled;
    }

    pub fn enabled(&self) -> (r: bool)
        ensures
            r == self.enabled,
    {
        self.enabled
    }

    /// Clocks the counter; true when the channel should be disabled.
    pub fn tick(&mut self) -> (expired: bool)
        ensures
            (*final(self), expired) == old(self).spec_tick(),
    {
        if !self.enabled || self.frozen {
            return false;
        }
        self.length = self.length.wrapping_add(1) & self.initial.wrapping_sub(1);
        if self.length == 0 {
            self.frozen = true;
        }
        self.length == 0
    }
}

proof fn lemma_mask63(x: u8)
    requires
        x < 64,
    ensures
        wrap8(x + 1) & 63u8 == (x + 1) % 64,
{
    let y = wrap8(x + 1);
    assert(y == x + 1);
    lemma_u8_facts();
}

/// An enabled 64-step counter holding `length` expires exactly on the
/// `64 - length`-th clock and never before; until then it counts up by one per clock.
pub proof fn lemma_length_counter_expiry(c: LengthCounter, i: nat)
    requires
        c.initial == 64,
        c.enabled,
        !c.frozen,
        c.length < 64,
        i < 64 - c.length,
    ensures
        c.ticked(i) == (LengthCounter { length: (c.length + i) as u8, ..c }),
        c.ticked(i).spec_tick().1 == (i + 1 == 64 - c.length),
    decreases i,
{
    assert(c.mask() == 63);
    lemma_mask63(c.length);
    if i > 0 {
        let next = c.spec_tick().0;
        lemma_length_counter_expiry(next, (i - 1) as nat);
    }
    let d = c.ticked(i);
    assert(d.mask() == 63);
    lemma_mask63(d.length);
}

/// Loading length `length` (0..=63) into an enabled 64-step counter switches the
/// channel off after exactly `64 - length` clocks: each of the clocks before reports
/// no expiry, clock number `64 - length` does.
pub proof fn lemma_length_load_expiry(c: LengthCounter, length: u8, i: nat)
    requires
        c.initial == 64,
        c.enabled,
        length < 64,
        i < 64 - length,
    ensures
        c.spec_reload(length).ticked(i).spec_tick().1 == (i + 1 == 64 - length),
{
    lemma_u8_facts();
    assert(c.mask() == 63);
    assert(c.spec_reload(length).length == length);
    lemma_length_counter_expiry(c.spec_reload(length), i);
}

/// A disabled or frozen counter neither changes nor reports expiry.
pub proof fn lemma_length_counter_idle(c: LengthCounter)
    requires
        !c.enabled || c.frozen,
    ensures
        c.spec_tick() == (c, false),
{
}

} // verus!
