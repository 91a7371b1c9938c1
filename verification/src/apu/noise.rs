use vstd::prelude::*;
use crate::apu::channel::Channel;
use crate::apu::length_counter::LengthCounter;
use crate::apu::lfsr::{Lfsr, SHIFT_REGISTER_INITIAL, shifted};
use crate::apu::timer::Timer;
use crate::apu::volume_envelope::{VolumeEnvelope, lemma_volume_bounded};
use crate::bits::{BIT_3, BIT_6, BIT_7, lemma_u8_facts, lemma_u16_facts};

verus! {

/// The noise channel (channel 4): an LFSR clocked by a programmable divider.
#[derive(Clone, Copy, Debug)]
pub struct Noise {
    pub lfsr: Lfsr,
    pub volume_envelope: VolumeEnvelope,
    pub enabled: bool,
    pub clock_shift: u8,
    pub devisor_code: u8,
    pub frequency_timer: Timer,
    pub length_counter: LengthCounter,
    pub acc: u32,
}

/// The base divisor selected by the low three bits of `code`.
pub open spec fn divisor_of(code: u8) -> u16 {
    let c = code % 8;
    if c == 0 {
        8
    } else {
        (c * 16) as u16
    }
}

/// The frequency timer's period: the divisor shifted left by the clock shift (on 16 bits).
pub open spec fn noise_period(code: u8, clock_shift: u8) -> u16 {
    divisor_of(code) << (clock_shift as u16)
}

impl Noise {
    pub open spec fn spec_new() -> Noise {
        Noise {
            lfsr: Lfsr { shift_register: SHIFT_REGISTER_INITIAL, width: 14 },
            volume_envelope: VolumeEnvelope::spec_default(),
            enabled: false,
            clock_shift: 0,
            devisor_code: 0,
            frequency_timer: Timer { counter: 8, period: 8 },
            length_counter: LengthCounter::new_spec(64),
            acc: 0,
        }
    }

    pub open spec fn nrx1_value(self) -> u8 {
        self.length_counter.length
    }

    pub open spec fn nrx2_value(self) -> u8 {
        self.volume_envelope.spec_read_byte()
    }

    pub open spec fn nrx3_value(self) -> u8 {
        (self.clock_shift << 4u8) | (if self.lfsr.width == 6 { 0u8 } else { BIT_3 }) | self.devisor_code
    }

    pub open spec fn nrx4_value(self) -> u8 {
        (if self.length_counter.enabled { 0x40u8 } else { 0u8 }) | (if self.enabled { 0x80u8 } else { 0u8 })
    }

    pub open spec fn spec_write_nrx1(self, value: u8) -> Noise {
        Noise { length_counter: self.length_counter.spec_reload(value & 0x3F), ..self }
    }

    pub open spec fn spec_write_nrx2(self, value: u8) -> Noise {
        Noise { volume_envelope: self.volume_envelope.spec_write_byte(value), ..self }
    }

    pub open spec fn spec_write_nrx3(self, value: u8) -> Noise {
        let clock_shift = (value >> 4u8) & 0x0F;
        let devisor_code = value & 0x07;
        let period = noise_period(devisor_code, clock_shift);
        Noise {
            clock_shift,
            devisor_code,
            frequency_timer: Timer { counter: period, period },
            lfsr: Lfsr {
                width: if value & BIT_3 == BIT_3 { 6 } else { 14 },
                shift_register: SHIFT_REGISTER_INITIAL,
            },
            ..self
        }
    }

    pub open spec fn spec_write_nrx4(self, value: u8) -> Noise {
        let lc = LengthCounter { enabled: value & BIT_6 == BIT_6, ..self.length_counter };
        if value & BIT_7 == BIT_7 {
            Noise {
                enabled: true,
                length_counter: if lc.length == 0 { LengthCounter { length: 64, ..lc } } else { lc },
                frequency_timer: Timer { counter: self.frequency_timer.period, ..self.frequency_timer },
                volume_envelope: VolumeEnvelope {
                    timer: Timer { counter: 0, ..self.volume_envelope.timer },
                    ..self.volume_envelope
                },
                lfsr: Lfsr { shift_register: SHIFT_REGISTER_INITIAL, ..self.lfsr },
                ..self
            }
        } else {
            Noise { length_counter: lc, ..self }
        }
    }

    pub open spec fn spec_tick(self) -> Noise {
        let (t, fired) = self.frequency_timer.spec_tick();
        Noise {
            frequency_timer: t,
            lfsr: if fired {
                Lfsr { shift_register: shifted(self.lfsr.shift_register, self.lfsr.width), ..self.lfsr }
            } else {
                self.lfsr
            },
            ..self
        }
    }

    pub open spec fn spec_tick_length_ctr(self) -> Noise {
        let (lc, expired) = self.length_counter.spec_tick();
        Noise { length_counter: lc, enabled: self.enabled && !expired, ..self }
    }

    pub open spec fn spec_sample(self) -> u8 {
        if self.lfsr.shift_register & 1 == 0 {
            self.volume_envelope.volume
        } else {
            0
        }
    }

    pub open spec fn spec_reset(self) -> Noise {
        Noise {
            lfsr: Lfsr { shift_register: SHIFT_REGISTER_INITIAL, ..self.lfsr },
            volume_envelope: self.volume_envelope.spec_write_byte(0),
            length_counter: LengthCounter { enabled: false, length: 0, ..self.length_counter },
            enabled: false,
            ..self
        }
    }

    pub fn new() -> (n: Self)
        ensures
            n == Self::spec_new(),
            n.wf(),
    {
        let mut res = Self {
            lfsr: Lfsr::default(),
            volume_envelope: VolumeEnvelope::default(),
            enabled: false,
            clock_shift: 0,
            devisor_code: 0,
            frequency_timer: Timer::new(0),
            length_counter: LengthCounter::default(),
            acc: 0,
        };
        let p = res.timer_period();
        proof {
            lemma_u16_facts();
        }
        res.frequency_timer.set_period(p);
        res
    }

    pub fn default() -> (n: Self)
        ensures
            n == Self::spec_new(),
            n.wf(),
    {
        Self::new()
    }

    fn timer_period(&self) -> (p: u16)
        requires
            self.clock_shift < 16,
        ensures
            p == noise_period(self.devisor_code, self.clock_shift),
    {
        self.divisor() << (self.clock_shift as u16)
    }

    fn divisor(&self) -> (d: u16)
        ensures
            d == divisor_of(self.devisor_code),
    {
        let code = self.devisor_code;
        let c = code & 7;
        proof {
            lemma_u8_facts();
        }
        if c == 0 {
            8
        } else if c == 1 {
            16
        } else if c == 2 {
            32
        } else if c == 3 {
            48
        } else if c == 4 {
            64
        } else if c == 5 {
            80
        } else if c == 6 {
            96
        } else {
            112
        }
    }
}

impl Channel for Noise {
    open spec fn wf(&self) -> bool {
        &&& self.clock_shift < 16
        &&& self.lfsr.width < 16
        &&& self.volume_envelope.volume <= 15
    }

    /// NR40 does not exist: writes are ignored.
    fn write_nrx0(&mut self, _value: u8)
        ensures
            *final(self) == *old(self),
    {
    }

    fn read_nrx0(&self) -> (r: u8)
        ensures
            r == 0xFF,
    {
        0xFF
    }

    fn write_nrx1(&mut self, value: u8)
        ensures
            *final(self) == old(self).spec_write_nrx1(value),
    {
        self.length_counter.reload(value & 0b0011_1111);
    }

    fn read_nrx1(&self) -> (r: u8)
        ensures
            r == self.nrx1_value(),
    {
        self.length_counter.length
    }

    fn write_nrx2(&mut self, value: u8)
        ensures
            *final(self) == old(self).spec_write_nrx2(value),
    {
        self.volume_envelope.write_byte(value);
    }

    fn read_nrx2(&self) -> (r: u8)
        ensures
            r == self.nrx2_value(),
    {
        self.volume_envelope.read_byte()
    }

    fn write_nrx3(&mut self, value: u8)
        ensures
            *final(self) == old(self).spec_write_nrx3(value),
    {
        self.clock_shift = (value >> 4u8) & 0b1111;
        proof {
            lemma_u8_facts();
        }
        self.devisor_code = value & 0b111;
        let p = self.timer_period();
        self.frequency_timer.set_period(p);
        self.lfsr.width = if value & BIT_3 == BIT_3 { 6 } else { 14 };
        self.lfsr.reset();
    }

    fn read_nrx3(&self) -> (r: u8)
        ensures
            r == self.nrx3_value(),
    {
        let lfsr_mode: u8 = if self.lfsr.width == 6 { 0 } else { BIT_3 };
        (self.clock_shift << 4u8) | lfsr_mode | self.devisor_code
    }

    fn write_nrx4(&mut self, value: u8)
        ensures
            *final(self) == old(self).spec_write_nrx4(value),
    {
        let trigger = value & BIT_7 == BIT_7;
        self.length_counter.enabled = value & BIT_6 == BIT_6;
        if trigger {
            self.enabled = true;
            if self.length_counter.length == 0 {
                self.length_counter.length = 64;
            }
            self.frequency_timer.reload();
            self.volume_envelope.reload();
            self.lfsr.reset();
        }
    }

    fn read_nrx4(&self) -> (r: u8)
        ensures
            r == self.nrx4_value(),
    {
        let length_enable: u8 = if self.length_counter.enabled { 0x40 } else { 0 };
        let trigger: u8 = if self.enabled { 0x80 } else { 0 };
        length_enable | trigger
    }

    fn tick(&mut self)
        ensures
            *final(self) == old(self).spec_tick(),
    {
        if self.frequency_timer.tick() {
            let _ = self.lfsr.step();
        }
    }

    /// The noise channel has no sweep unit: nothing to clock.
    fn tick_sweep(&mut self)
        ensures
            *final(self) == *old(self),
    {
    }

    fn tick_length_ctr(&mut self)
        ensures
            *final(self) == old(self).spec_tick_length_ctr(),
    {
        if self.length_counter.tick() {
            self.enabled = false;
        }
    }

    fn tick_vol_env(&mut self)
        ensures
            *final(self) == (Noise { volume_envelope: old(self).volume_envelope.spec_tick(), ..*old(self) }),
    {
        proof {
            lemma_volume_bounded(self.volume_envelope);
        }
        self.volume_envelope.tick();
    }

    /// The volume when the register's low bit is clear, else silence.
    fn sample(&self) -> (s: u8)
        ensures
            s == self.spec_sample(),
    {
        let volume = self.volume_envelope.volume;
        if self.lfsr.shift_register & 1 == 0 {
            volume
        } else {
            0
        }
    }

    fn enabled(&self) -> (r: bool)
        ensures
            r == self.enabled,
    {
        self.enabled
    }

    fn reset(&mut self)
        ensures
            *final(self) == old(self).spec_reset(),
    {
        self.lfsr.reset();
        self.volume_envelope.write_byte(0);
        self.length_counter.enabled = false;
        self.length_counter.length = 0;
        self.enabled = false;
    }
}

} // verus!
