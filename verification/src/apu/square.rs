use vstd::prelude::*;
use crate::apu::channel::Channel;
use crate::apu::length_counter::LengthCounter;
use crate::apu::timer::Timer;
use crate::apu::volume_envelope::{VolumeEnvelope, lemma_volume_bounded};
use crate::bits::{BIT_6, BIT_7, lemma_u8_facts, lemma_u16_facts};

verus! {

/// A square-wave channel (channels 1 and 2).
#[derive(Clone, Copy, Debug)]
pub struct Square {
    pub sweeper: bool,
    pub enabled: bool,
    pub length_counter: LengthCounter,
    pub volume_envelope: VolumeEnvelope,
    pub frequency_timer: Timer,
    pub frequency: u16,
    pub duty_cycle: u8,
    pub duty_index: u8,
}

/// The eight-step waveforms for the four duty settings.
pub open spec fn duty_pattern(index: u8) -> u8 {
    if index == 0 {
        0b00000001
    } else if index == 1 {
        0b10000001
    } else if index == 2 {
        0b10000111
    } else {
        0b01111110
    }
}

/// The timer period for an 11-bit frequency value.
pub open spec fn square_period(frequency: u16) -> u16 {
    ((2048 - frequency) * 4) as u16
}

fn duty(index: u8) -> (p: u8)
    ensures
        p == duty_pattern(index),
{
    if index == 0 {
        0b00000001
    } else if index == 1 {
        0b10000001
    } else if index == 2 {
        0b10000111
    } else {
        0b01111110
    }
}

impl Square {
    pub open spec fn spec_default(sweeper: bool) -> Square {
        Square {
            sweeper,
            enabled: false,
            length_counter: LengthCounter::new_spec(64),
            volume_envelope: VolumeEnvelope::spec_default(),
            frequency_timer: Timer { counter: 0, period: 0 },
            frequency: 0,
            duty_cycle: 0,
            duty_index: 0,
        }
    }

    /// The channel tuned to `frequency`, its timer restarted with the matching period.
    pub open spec fn with_frequency(self, frequency: u16) -> Square {
        Square {
            frequency,
            frequency_timer: Timer { counter: square_period(frequency), period: square_period(frequency) },
            ..self
        }
    }

    pub open spec fn spec_write_nrx1(self, value: u8) -> Square {
        Square { length_counter: self.length_counter.spec_reload(value & 0x3F), ..self }
    }

    pub open spec fn spec_write_nrx2(self, value: u8) -> Square {
        Square { volume_envelope: self.volume_envelope.spec_write_byte(value), ..self }
    }

    pub open spec fn spec_write_nrx3(self, value: u8) -> Square {
        self.with_frequency((self.frequency & 0x0700) | (value as u16))
    }

    pub open spec fn spec_write_nrx4(self, value: u8) -> Square {
        Square {
            enabled: self.enabled || value & BIT_7 == BIT_7,
            length_counter: LengthCounter { enabled: value & BIT_6 == BIT_6, ..self.length_counter },
            ..self
        }.with_frequency((self.frequency & 0x00FF) | (((value & 0b111) as u16) << 8u16))
    }

    pub open spec fn nrx1_value(self) -> u8 {
        self.length_counter.length
    }

    pub open spec fn nrx2_value(self) -> u8 {
        self.volume_envelope.spec_read_byte()
    }

    pub open spec fn nrx3_value(self) -> u8 {
        (self.frequency & 0x00FF) as u8
    }

    pub open spec fn nrx4_value(self) -> u8 {
        (if self.enabled { 0x80u8 } else { 0u8 }) | (if self.length_counter.enabled { 0x40u8 } else { 0u8 })
            | ((self.frequency >> 8u16) as u8)
    }

    pub open spec fn spec_tick(self) -> Square {
        let (t, fired) = self.frequency_timer.spec_tick();
        Square {
            frequency_timer: t,
            duty_cycle: if fired { ((self.duty_cycle + 1) % 8) as u8 } else { self.duty_cycle },
            ..self
        }
    }

    pub open spec fn spec_tick_length_ctr(self) -> Square {
        let (lc, expired) = self.length_counter.spec_tick();
        Square { length_counter: lc, enabled: self.enabled && !expired, ..self }
    }

    pub open spec fn spec_sample(self) -> u8 {
        if duty_pattern(self.duty_index) & (1u8 << self.duty_cycle) != 0 {
            self.volume_envelope.volume
        } else {
            0
        }
    }

    pub open spec fn spec_reset(self) -> Square {
        Square {
            volume_envelope: self.volume_envelope.spec_write_byte(0),
            length_counter: LengthCounter { enabled: false, length: 0, ..self.length_counter },
            enabled: false,
            ..self
        }.with_frequency(0)
    }

    /// The first square channel, which owns the sweep register.
    pub fn sweeper() -> (s: Self)
        ensures
            s == Self::spec_default(true),
            s.wf(),
    {
        Self {
            sweeper: true,
            enabled: false,
            length_counter: LengthCounter::default(),
            volume_envelope: VolumeEnvelope::default(),
            frequency_timer: Timer::new(0),
            frequency: 0,
            duty_cycle: 0,
            duty_index: 0,
        }
    }

    pub fn default() -> (s: Self)
        ensures
            s == Self::spec_default(false),
            s.wf(),
    {
        Self {
            sweeper: false,
            enabled: false,
            length_counter: LengthCounter::default(),
            volume_envelope: VolumeEnvelope::default(),
            frequency_timer: Timer::new(0),
            frequency: 0,
            duty_cycle: 0,
            duty_index: 0,
        }
    }

    fn timer_period(&self) -> (p: u16)
        requires
            self.frequency <= 0x7FF,
        ensures
            p == square_period(self.frequency),
    {
        (2048 - self.frequency) * 4
    }

    fn set_frequency(&mut self, frequency: u16)
        requires
            frequency <= 0x7FF,
        ensures
            *final(self) == old(self).with_frequency(frequency),
    {
        self.frequency = frequency;
        let p = self.timer_period();
        self.frequency_timer.set_period(p);
    }
}

impl Channel for Square {
    open spec fn wf(&self) -> bool {
        &&& self.frequency <= 0x7FF
        &&& self.duty_cycle < 8
        &&& self.duty_index < 4
        &&& self.volume_envelope.volume <= 15
    }

    /// NR10/NR20: the sweep register is not modelled; writes are ignored.
    fn write_nrx0(&mut self, _value: u8)
        ensures
            *final(self) == *old(self),
    {
    }

    fn read_nrx0(&self) -> (r: u8)
        ensures
            r == 0,
    {
        0
    }

    fn write_nrx1(&mut self, value: u8)
        ensures
            *final(self) == old(self).spec_write_nrx1(value),
    {
        self.length_counter.reload(value & 0b0011_1111)
    }

    fn read_nrx1(&self) -> (r: u8)
        ensures
            r == self.nrx1_value(),
    {
        self.length_counter.length
    }

    fn write_nrx2(&mut self, value: u8)
        ensures
            *final(self) == old(self).spec_write_nrx2(value),
    {
        self.volume_envelope.write_byte(value)
    }

    fn read_nrx2(&self) -> (r: u8)
        ensures
            r == self.nrx2_value(),
    {
        self.volume_envelope.read_byte()
    }

    fn write_nrx3(&mut self, value: u8)
        ensures
            *final(self) == old(self).spec_write_nrx3(value),
    {
        let f = self.frequency;
        let nf = (f & 0x0700) | (value as u16);
        proof {
            lemma_u16_facts();
        }
        self.set_frequency(nf);
    }

    fn read_nrx3(&self) -> (r: u8)
        ensures
            r == self.nrx3_value(),
    {
        (self.frequency & 0x00FF) as u8
    }

    fn write_nrx4(&mut self, value: u8)
        ensures
            *final(self) == old(self).spec_write_nrx4(value),
    {
        let trigger = value & BIT_7 == BIT_7;
        self.length_counter.enabled = value & BIT_6 == BIT_6;
        if trigger {
            self.enabled = true;
        }
        let frequency_msb = value & 0b111;
        proof {
            lemma_u8_facts();
            lemma_u16_facts();
        }
        let f = self.frequency;
        let nf = (f & 0x00FF) | ((frequency_msb as u16) << 8u16);
        assert((f & 0x00FF) | ((frequency_msb as u16) << 8u16) <= 0x7FF);
        self.set_frequency(nf);
    }

    fn read_nrx4(&self) -> (r: u8)
        ensures
            r == self.nrx4_value(),
    {
        let trigger: u8 = if self.enabled { 0x80 } else { 0 };
        let length_enable: u8 = if self.length_counter.enabled { 0x40 } else { 0 };
        let frequency_msb = (self.frequency >> 8u16) as u8;
        trigger | length_enable | frequency_msb
    }

    fn tick(&mut self)
        ensures
            *final(self) == old(self).spec_tick(),
    {
        if self.frequency_timer.tick() {
            let d = self.duty_cycle + 1;
            proof {
                lemma_u8_facts();
            }
            self.duty_cycle = d & 0x7;
        }
    }

    /// The square channels here carry no sweep unit: nothing to clock.
    fn tick_sweep(&mut self)
        ensures
            *final(self) == *old(self),
    {
    }

    fn tick_length_ctr(&mut self)
        ensures
            *final(self) == old(self).spec_tick_length_ctr(),
    {
        if self.length_counter.tick() {
            self.enabled = false;
        }
    }

    fn tick_vol_env(&mut self)
        ensures
            *final(self) == (Square { volume_envelope: old(self).volume_envelope.spec_tick(), ..*old(self) }),
    {
        proof {
            lemma_volume_bounded(self.volume_envelope);
        }
        self.volume_envelope.tick();
    }

    fn sample(&self) -> (s: u8)
        ensures
            s == self.spec_sample(),
    {
        let volume = self.volume_envelope.volume;
        let pattern = duty(self.duty_index);
        if pattern & (1u8 << self.duty_cycle) != 0 {
            volume
        } else {
            0
        }
    }

    fn enabled(&self) -> (r: bool)
        ensures
            r == self.enabled,
    {
        self.enabled
    }

    fn reset(&mut self)
        ensures
            *final(self) == old(self).spec_reset(),
    {
        self.volume_envelope.write_byte(0);
        self.length_counter.enabled = false;
        self.length_counter.length = 0;
        self.enabled = false;
        self.set_frequency(0);
    }
}

/// The four duty settings are high on 1, 2, 4 and 6 of the eight steps (12.5%, 25%,
/// 50% and 75%): setting 0 at step 0; setting 1 at steps 0 and 7; setting 2 at steps
/// 0, 1, 2 and 7; setting 3 at steps 1 to 6. On a high step the sample is the volume,
/// else 0.
pub proof fn lemma_duty_waveforms(s: Square)
    requires
        s.duty_cycle < 8,
        s.duty_index < 4,
    ensures
        ({
            let k = s.duty_cycle;
            let high = if s.duty_index == 0 {
                k == 0
            } else if s.duty_index == 1 {
                k == 0 || k == 7
            } else if s.duty_index == 2 {
                k == 0 || k == 1 || k == 2 || k == 7
            } else {
                1 <= k <= 6
            };
            s.spec_sample() == if high { s.volume_envelope.volume } else { 0 }
        }),
{
    let k = s.duty_cycle;
    assert(0b00000001u8 & (1u8 << k) != 0 <==> k == 0) by (bit_vector)
        requires
            k < 8,
    ;
    assert(0b10000001u8 & (1u8 << k) != 0 <==> (k == 0 || k == 7)) by (bit_vector)
        requires
            k < 8,
    ;
    assert(0b10000111u8 & (1u8 << k) != 0 <==> (k == 0 || k == 1 || k == 2 || k == 7)) by (bit_vector)
        requires
            k < 8,
    ;
    assert(0b01111110u8 & (1u8 << k) != 0 <==> (1 <= k <= 6)) by (bit_vector)
        requires
            k < 8,
    ;
}

} // verus!
