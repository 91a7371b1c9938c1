use vstd::prelude::*;

verus! {

/// A down-counting divider: it counts `period` ticks, fires on the next one and reloads.
/// A period of zero stops it.
#[derive(Clone, Copy, Debug, Default)]
pub struct Timer {
    pub counter: u16,
    pub period: u16,
}

impl Timer {
    /// One tick: the next state and whether the timer fired.
    pub open spec fn spec_tick(self) -> (Timer, bool) {
        if self.period == 0 {
            (self, false)
        } else if self.counter == 0 {
            (Timer { counter: self.period, period: self.period }, true)
        } else {
            (Timer { counter: (self.counter - 1) as u16, period: self.period }, false)
        }
    }

    /// The state after `n` ticks.
    pub open spec fn ticked(self, n: nat) -> Timer
        decreases n,
    {
        if n == 0 {
            self
        } else {
            self.spec_tick().0.ticked((n - 1) as nat)
        }
    }

    pub fn new(period: u16) -> (t: Self)
        ensures
            t.counter == period,
            t.period == period,
    {
        Self { counter: period, period }
    }

    pub fn tick(&mut self) -> (fired: bool)
        ensures
            (*final(self), fired) == old(self).spec_tick(),
    {
        if self.period == 0 {
            return false;
        }
        if self.counter == 0 {
            self.reload();
            return true;
        }
        self.counter -= 1;
        false
    }

    pub fn set_period(&mut self, period: u16)
        ensures
            final(self).period == period,
            final(self).counter == period,
    {
        self.period = period;
        self.reload();
    }

    pub fn get_period(&self) -> (p: u16)
        ensures
            p == self.period,
    {
        self.period
    }

    pub fn reload(&mut self)
        ensures
            final(self).period == old(self).period,
            final(self).counter == old(self).period,
    {
        self.counter = self.period;
    }
}

/// A timer with a nonzero period stays silent for `counter` ticks, then fires and
/// reloads: after a reload it fires once every `period + 1` ticks.
pub proof fn lemma_timer_fires_after_counter(t: Timer, i: nat)
    requires
        t.period > 0,
        i <= t.counter,
    ensures
        t.ticked(i).period == t.period,
        t.ticked(i).counter == t.counter - i,
        i < t.counter ==> !t.ticked(i).spec_tick().1,
        i == t.counter ==> t.ticked(i).spec_tick().1,
        i == t.counter ==> t.ticked(i).spec_tick().0 == (Timer { counter: t.period, period: t.period }),
    decreases i,
{
    if i > 0 {
        let next = t.spec_tick().0;
        lemma_timer_fires_after_counter(next, (i - 1) as nat);
    }
}

proof fn lemma_ticked_split(t: Timer, n: nat)
    ensures
        t.ticked(n + 1) == t.ticked(n).spec_tick().0,
    decreases n,
{
    let w = t.spec_tick().0;
    if n > 0 {
        lemma_ticked_split(w, (n - 1) as nat);
        assert(t.ticked(n) == w.ticked((n - 1) as nat));
    } else {
        assert(w.ticked(0) == w);
    }
    assert(t.ticked(n + 1) == w.ticked(n));
}

proof fn lemma_mod_step(n: int, p: int)
    requires
        n >= 0,
        p > 0,
    ensures
        0 <= n % (p + 1) <= p,
        (n + 1) % (p + 1) == if n % (p + 1) == p { 0 } else { n % (p + 1) + 1 },
{
    let m = p + 1;
    let q = n / m;
    let r = n % m;
    vstd::arithmetic::div_mod::lemma_fundamental_div_mod(n, m);
    vstd::arithmetic::div_mod::lemma_mod_bound(n, m);
    if r == p {
        assert(n + 1 == (q + 1) * m + 0) by (nonlinear_arith)
            requires
                n == m * q + r,
                r == m - 1,
        ;
        vstd::arithmetic::div_mod::lemma_fundamental_div_mod_converse(n + 1, m, q + 1, 0);
    } else {
        assert(n + 1 == q * m + (r + 1)) by (nonlinear_arith)
            requires
                n == m * q + r,
        ;
        vstd::arithmetic::div_mod::lemma_fundamental_div_mod_converse(n + 1, m, q, r + 1);
    }
}

/// A freshly loaded timer (counter equal to its period) with a nonzero period fires
/// on exactly the ticks numbered `k * (period + 1)`, `k >= 1`, and keeps its period;
/// with period zero it never fires and never changes.
pub proof fn lemma_timer_fires_every_period(t: Timer, n: nat)
    requires
        t.counter == t.period,
    ensures
        t.period == 0 ==> t.ticked(n) == t && !t.ticked(n).spec_tick().1,
        t.period > 0 ==> {
            &&& t.ticked(n).period == t.period
            &&& t.ticked(n).counter == t.period - (n as int) % (t.period + 1)
            &&& (t.ticked(n).spec_tick().1 <==> (n + 1) as int % (t.period + 1) == 0)
        },
    decreases n,
{
    let p = t.period as nat;
    if n > 0 {
        lemma_timer_fires_every_period(t, (n - 1) as nat);
        lemma_ticked_split(t, (n - 1) as nat);
        if p > 0 {
            lemma_mod_step(n - 1, p as int);
        }
    }
    if p > 0 {
        lemma_mod_step(n as int, p as int);
        vstd::arithmetic::div_mod::lemma_small_mod(0, p + 1);
    }
}

} // verus!
