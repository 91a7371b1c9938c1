use vstd::prelude::*;
use crate::apu::timer::Timer;
use crate::bits::wrap16;

verus! {

/// The frequency sweep unit of the first square channel.
#[derive(Clone, Copy, Debug, Default)]
pub struct Sweep {
    pub enabled: bool,
    pub negate: bool,
    pub shift: u8,
    pub timer: Timer,
    pub shadow_frequency: u16,
}

impl Sweep {
    /// The frequency offset for the current shadow frequency.
    pub open spec fn delta(self) -> u16 {
        self.shadow_frequency >> (self.shift as u16)
    }

    /// The shadow frequency moved by one step, wrapping on 16 bits.
    pub open spec fn spec_next_shadow_freq(self) -> u16 {
        if self.negate {
            wrap16(self.shadow_frequency - self.delta())
        } else {
            wrap16(self.shadow_frequency + self.delta())
        }
    }

    /// A step of the shadow frequency does not leave 16 bits.
    pub open spec fn step_fits(self) -> bool {
        self.negate || self.shadow_frequency + self.delta() <= u16::MAX
    }

    /// One 128 Hz clock: the next state, whether to disable the channel, and the
    /// frequency to write back to it.
    pub open spec fn spec_tick(self) -> (Sweep, bool, Option<u16>) {
        if !self.enabled {
            (self, false, None)
        } else {
            let (timer, fired) = self.timer.spec_tick();
            let s = Sweep { timer, ..self };
            if fired && self.shift != 0 {
                let f = s.spec_next_shadow_freq();
                if f > 2047 {
                    (s, true, None)
                } else {
                    let s2 = Sweep { shadow_frequency: f, ..s };
                    (s2, s2.spec_next_shadow_freq() > 2047, Some(f))
                }
            } else {
                (s, false, None)
            }
        }
    }

    /// The register value NR10 reads back.
    pub open spec fn spec_read_byte(self) -> u8 {
        ((self.timer.period << 4u16) as u8) | ((if self.negate { 1u8 } else { 0u8 }) << 3u8) | self.shift
    }

    pub open spec fn spec_write_byte(self, value: u8) -> Sweep {
        let period = ((value & 0x70) >> 4u8) as u16;
        Sweep {
            timer: Timer { counter: period, period },
            negate: value & 0x08 != 0,
            shift: value & 0x07,
            ..self
        }
    }

    /// Restarts the sweep from `frequency`; with a nonzero shift the shadow frequency
    /// is stepped once at once.
    pub fn trigger(&mut self, frequency: u16)
        requires
            old(self).shift < 16,
            old(self).shift != 0 ==> (Sweep { shadow_frequency: frequency, ..*old(self) }).step_fits(),
        ensures
            ({
                let s = Sweep {
                    timer: Timer { counter: old(self).timer.period, period: old(self).timer.period },
                    shadow_frequency: frequency,
                    enabled: old(self).shift != 0 || old(self).timer.period != 0,
                    ..*old(self)
                };
                *final(self) == if old(self).shift != 0 { s.spec_calculate().0 } else { s }
            }),
    {
        self.timer.reload();
        self.shadow_frequency = frequency;
        self.enabled = self.shift != 0 || self.timer.get_period() != 0;
        if self.shift != 0 {
            let _ = self.calculate();
        }
    }

    pub open spec fn spec_calculate(self) -> (Sweep, bool) {
        let f: u16 = if self.negate {
            (self.shadow_frequency - self.delta()) as u16
        } else {
            (self.shadow_frequency + self.delta()) as u16
        };
        (Sweep { shadow_frequency: f, ..self }, f > 2047)
    }

    /// Steps the shadow frequency; true when it overflowed the 11-bit range.
    fn calculate(&mut self) -> (overflow: bool)
        requires
            old(self).shift < 16,
            old(self).step_fits(),
        ensures
            (*final(self), overflow) == old(self).spec_calculate(),
    {
        let sf = self.shadow_frequency;
        let sh = self.shift as u16;
        let new_freq = sf >> sh;
        assert(new_freq <= sf) by (bit_vector)
            requires
                new_freq == sf >> sh,
        ;
        if self.negate {
            self.shadow_frequency = self.shadow_frequency - new_freq;
        } else {
            self.shadow_frequency = self.shadow_frequency + new_freq;
        }
        self.shadow_frequency > 2047
    }

    fn next_shadow_freq(&self) -> (f: u16)
        requires
            self.shift < 16,
        ensures
            f == self.spec_next_shadow_freq(),
    {
        let freq_diff = self.shadow_frequency >> (self.shift as u16);
        if self.negate {
            self.shadow_frequency.wrapping_sub(freq_diff)
        } else {
            self.shadow_frequency.wrapping_add(freq_diff)
        }
    }

    /// Clocks the sweep. The first result is true when the channel must be disabled;
    /// the second is the new frequency to write back to the channel.
    pub fn tick(&mut self) -> (r: (bool, Option<u16>))
        requires
            old(self).shift < 16,
        ensures
            (*final(self), r.0, r.1) == old(self).spec_tick(),
    {
        if !self.enabled {
            return (false, None);
        }
        if self.timer.tick() && self.shift != 0 {
            let new_freq = self.next_shadow_freq();
            if new_freq > 2047 {
                (true, None)
            } else {
                self.shadow_frequency = new_freq;
                let new_new_freq = self.next_shadow_freq();
                let disable_channel = new_new_freq > 2047;
                (disable_channel, Some(new_freq))
            }
        } else {
            (false, None)
        }
    }

    pub fn write_byte(&mut self, value: u8)
        ensures
            *final(self) == old(self).spec_write_byte(value),
    {
        self.timer.set_period(((value & 0b01110000) >> 4u8) as u16);
        self.negate = value & 0b1000 != 0;
        self.shift = value & 0b0111;
    }

    pub fn read_byte(&self) -> (r: u8)
        ensures
            r == self.spec_read_byte(),
    {
        let period = (self.timer.get_period() << 4u16) as u8;
        let negate: u8 = (if self.negate { 1u8 } else { 0u8 }) << 3u8;
        let shift = self.shift;
        period | negate | shift
    }
}

/// NR10 reads back what was written to it, less the unused top bit.
pub proof fn lemma_sweep_register_round_trip(s: Sweep, value: u8)
    ensures
        s.spec_write_byte(value).spec_read_byte() == value & 0x7F,
{
    let w = s.spec_write_byte(value);
    let p: u16 = ((value & 0x70) >> 4u8) as u16;
    let n: u8 = if value & 0x08 != 0 { 1u8 } else { 0u8 };
    assert(p == (((value & 0x70) >> 4u8) as u16));
    assert((((p << 4u16) as u8) | (n << 3u8) | (value & 0x07)) == value & 0x7F) by (bit_vector)
        requires
            p == (((value & 0x70) >> 4u8) as u16),
            n == (if value & 0x08 != 0 { 1u8 } else { 0u8 }),
    ;
}

} // verus!
