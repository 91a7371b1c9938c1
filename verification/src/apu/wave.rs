use vstd::prelude::*;
use crate::apu::channel::Channel;
use crate::apu::length_counter::LengthCounter;
use crate::apu::timer::Timer;
use crate::bits::{BIT_6, BIT_7, lemma_u8_facts, lemma_u16_facts};

verus! {

/// The wave channel's output level setting (NR32 bits 5-6).
#[derive(Clone, Copy, Debug, PartialEq, Eq, Structural)]
pub enum VolumeCode {
    Zero,
    OneHundred,
    Fifty,
    TwentyFive,
}

impl VolumeCode {
    pub open spec fn spec_shift_amount(self) -> u8 {
        match self {
            VolumeCode::Zero => 4,
            VolumeCode::OneHundred => 0,
            VolumeCode::Fifty => 1,
            VolumeCode::TwentyFive => 2,
        }
    }

    /// The 2-bit code stored in NR32.
    pub open spec fn spec_code(self) -> u8 {
        match self {
            VolumeCode::Zero => 0,
            VolumeCode::OneHundred => 1,
            VolumeCode::Fifty => 2,
            VolumeCode::TwentyFive => 3,
        }
    }

    pub open spec fn from_code(code: u8) -> VolumeCode {
        if code == 0 {
            VolumeCode::Zero
        } else if code == 1 {
            VolumeCode::OneHundred
        } else if code == 2 {
            VolumeCode::Fifty
        } else {
            VolumeCode::TwentyFive
        }
    }

    /// How far right a 4-bit sample is shifted at this level.
    pub fn shift_amount(self) -> (s: u8)
        ensures
            s == self.spec_shift_amount(),
    {
        match self {
            VolumeCode::Zero => 4,
            VolumeCode::OneHundred => 0,
            VolumeCode::Fifty => 1,
            VolumeCode::TwentyFive => 2,
        }
    }

    fn code(self) -> (c: u8)
        ensures
            c == self.spec_code(),
    {
        match self {
            VolumeCode::Zero => 0,
            VolumeCode::OneHundred => 1,
            VolumeCode::Fifty => 2,
            VolumeCode::TwentyFive => 3,
        }
    }
}

/// The wave channel (channel 3): plays 32 4-bit samples from wave RAM.
#[derive(Clone, Copy, Debug)]
pub struct Wave {
    pub dac_power: bool,
    pub enabled: bool,
    pub length_counter: LengthCounter,
    pub frequency_timer: Timer,
    pub volume_code: VolumeCode,
    pub frequency: u16,
    pub position_counter: u8,
    pub wave_ram: [u8; 32],
}

/// The timer period for an 11-bit frequency value.
pub open spec fn wave_period(frequency: u16) -> u16 {
    ((2048 - frequency) * 2) as u16
}

/// The 4-bit sample at `position` (0..64) of wave RAM: high nibble first.
pub open spec fn wave_sample(ram: Seq<u8>, position: u8) -> u8 {
    let byte = ram[(position / 2) as int];
    if position % 2 == 0 {
        (byte >> 4u8) & 0xF
    } else {
        byte & 0xF
    }
}

impl Wave {
    /// The power-on state, with wave RAM `ram`.
    pub open spec fn spec_default(ram: [u8; 32]) -> Wave {
        Wave {
            enabled: false,
            length_counter: LengthCounter::new_spec(64),
            frequency_timer: Timer { counter: 0, period: 0 },
            volume_code: VolumeCode::Zero,
            frequency: 0,
            dac_power: false,
            position_counter: 0,
            wave_ram: ram,
        }
    }

    pub open spec fn with_frequency(self, frequency: u16) -> Wave {
        Wave {
            frequency,
            frequency_timer: Timer { counter: wave_period(frequency), period: wave_period(frequency) },
            ..self
        }
    }

    pub open spec fn nrx0_value(self) -> u8 {
        if self.dac_power { 0x80 } else { 0 }
    }

    pub open spec fn nrx1_value(self) -> u8 {
        self.length_counter.length
    }

    pub open spec fn nrx2_value(self) -> u8 {
        self.volume_code.spec_code() << 5u8
    }

    pub open spec fn nrx3_value(self) -> u8 {
        (self.frequency & 0x00FF) as u8
    }

    pub open spec fn nrx4_value(self) -> u8 {
        (if self.enabled { 0x80u8 } else { 0u8 }) | (if self.length_counter.enabled { 0x40u8 } else { 0u8 })
            | ((self.frequency >> 8u16) as u8)
    }

    pub open spec fn spec_write_nrx0(self, value: u8) -> Wave {
        Wave { dac_power: value & BIT_7 != 0, ..self }
    }

    pub open spec fn spec_write_nrx1(self, value: u8) -> Wave {
        Wave { length_counter: self.length_counter.spec_reload(value), ..self }
    }

    pub open spec fn spec_write_nrx2(self, value: u8) -> Wave {
        Wave { volume_code: VolumeCode::from_code((value & 0x60) >> 5u8), ..self }
    }

    pub open spec fn spec_write_nrx3(self, value: u8) -> Wave {
        self.with_frequency((self.frequency & 0x0700) | (value as u16))
    }

    pub open spec fn spec_write_nrx4(self, value: u8) -> Wave {
        Wave {
            enabled: self.enabled || value & BIT_7 == BIT_7,
            length_counter: LengthCounter { enabled: value & BIT_6 == BIT_6, ..self.length_counter },
            ..self
        }.with_frequency((self.frequency & 0x00FF) | (((value & 0b111) as u16) << 8u16))
    }

    pub open spec fn spec_tick(self) -> Wave {
        let (t, fired) = self.frequency_timer.spec_tick();
        Wave {
            frequency_timer: t,
            position_counter: if fired { ((self.position_counter + 1) % 64) as u8 } else { self.position_counter },
            ..self
        }
    }

    pub open spec fn spec_tick_length_ctr(self) -> Wave {
        let (lc, expired) = self.length_counter.spec_tick();
        Wave { length_counter: lc, enabled: self.enabled && !expired, ..self }
    }

    pub open spec fn spec_reset(self) -> Wave {
        Wave {
            volume_code: VolumeCode::Zero,
            enabled: false,
            dac_power: false,
            position_counter: 0,
            length_counter: LengthCounter { enabled: false, ..self.length_counter }.spec_reload(0),
            frequency: 0,
            frequency_timer: Timer { counter: self.frequency_timer.period, ..self.frequency_timer },
            ..self
        }
    }

    pub fn default() -> (w: Self)
        ensures
            w == Self::spec_default(w.wave_ram),
            w.wave_ram@ == Seq::new(32, |i: int| 0u8),
            w.wf(),
    {
        let w = Self {
            enabled: false,
            length_counter: LengthCounter::default(),
            frequency_timer: Timer { counter: 0, period: 0 },
            volume_code: VolumeCode::Zero,
            frequency: 0,
            dac_power: false,
            position_counter: 0,
            wave_ram: [0; 32],
        };
        assert(w.wave_ram@ =~= Seq::new(32, |i: int| 0u8));
        w
    }

    fn timer_period(&self) -> (p: u16)
        requires
            self.frequency <= 0x7FF,
        ensures
            p == wave_period(self.frequency),
    {
        (2048 - self.frequency) * 2
    }

    fn set_frequency(&mut self, frequency: u16)
        requires
            frequency <= 0x7FF,
        ensures
            *final(self) == old(self).with_frequency(frequency),
    {
        self.frequency = frequency;
        let p = self.timer_period();
        self.frequency_timer.set_period(p);
    }

    /// The 4-bit sample at `counter_position` of wave RAM.
    pub fn sample_at(&self, counter_position: u8) -> (s: u8)
        requires
            counter_position < 64,
        ensures
            s == wave_sample(self.wave_ram@, counter_position),
    {
        let sample_index = counter_position / 2;
        let sample = self.wave_ram[sample_index as usize];
        let shift: u8 = if counter_position & 1 == 0 { 4 } else { 0 };
        proof {
            lemma_u8_facts();
        }
        (sample >> shift) & 0xF
    }
}

impl Channel for Wave {
    open spec fn wf(&self) -> bool {
        &&& self.frequency <= 0x7FF
        &&& self.position_counter < 64
    }

    fn write_nrx0(&mut self, value: u8)
        ensures
            *final(self) == old(self).spec_write_nrx0(value),
    {
        self.dac_power = value & BIT_7 != 0;
    }

    fn read_nrx0(&self) -> (r: u8)
        ensures
            r == self.nrx0_value(),
    {
        if self.dac_power {
            BIT_7
        } else {
            0
        }
    }

    fn write_nrx1(&mut self, value: u8)
        ensures
            *final(self) == old(self).spec_write_nrx1(value),
    {
        self.length_counter.reload(value)
    }

    fn read_nrx1(&self) -> (r: u8)
        ensures
            r == self.nrx1_value(),
    {
        self.length_counter.read_length()
    }

    fn write_nrx2(&mut self, value: u8)
        ensures
            *final(self) == old(self).spec_write_nrx2(value),
    {
        let code = (value & 0b0110_0000) >> 5u8;
        self.volume_code = if code == 0 {
            VolumeCode::Zero
        } else if code == 1 {
            VolumeCode::OneHundred
        } else if code == 2 {
            VolumeCode::Fifty
        } else {
            VolumeCode::TwentyFive
        };
    }

    fn read_nrx2(&self) -> (r: u8)
        ensures
            r == self.nrx2_value(),
    {
        self.volume_code.code() << 5u8
    }

    fn write_nrx3(&mut self, value: u8)
        ensures
            *final(self) == old(self).spec_write_nrx3(value),
    {
        let f = self.frequency;
        proof {
            lemma_u16_facts();
        }
        self.set_frequency((f & 0x0700) | (value as u16));
    }

    fn read_nrx3(&self) -> (r: u8)
        ensures
            r == self.nrx3_value(),
    {
        (self.frequency & 0x00FF) as u8
    }

    fn write_nrx4(&mut self, value: u8)
        ensures
            *final(self) == old(self).spec_write_nrx4(value),
    {
        let trigger = value & BIT_7 == BIT_7;
        self.length_counter.enabled = value & BIT_6 == BIT_6;
        if trigger {
            self.enabled = true;
        }
        let frequency_msb = value & 0b111;
        proof {
            lemma_u8_facts();
            lemma_u16_facts();
        }
        let f = self.frequency;
        assert((f & 0x00FF) | ((frequency_msb as u16) << 8u16) <= 0x7FF);
        self.set_frequency((f & 0x00FF) | ((frequency_msb as u16) << 8u16));
    }

    fn read_nrx4(&self) -> (r: u8)
        ensures
            r == self.nrx4_value(),
    {
        let frequency_msb = (self.frequency >> 8u16) as u8;
        let trigger: u8 = if self.enabled { BIT_7 } else { 0 };
        let length: u8 = if self.length_counter.enabled { BIT_6 } else { 0 };
        trigger | length | frequency_msb
    }

    fn tick(&mut self)
        ensures
            *final(self) == old(self).spec_tick(),
    {
        if self.frequency_timer.tick() {
            let p = self.position_counter + 1;
            proof {
                lemma_u8_facts();
            }
            self.position_counter = p & 63;
        }
    }

    fn tick_sweep(&mut self)
        ensures
            *final(self) == *old(self),
    {
    }

    fn tick_length_ctr(&mut self)
        ensures
            *final(self) == old(self).spec_tick_length_ctr(),
    {
        if self.length_counter.tick() {
            self.enabled = false;
        }
    }

    /// The wave channel has no volume envelope: nothing to clock.
    fn tick_vol_env(&mut self)
        ensures
            *final(self) == *old(self),
    {
    }

    /// The wave channel reports no level through this interface; see `sample`.
    fn sample(&self) -> (s: u8)
        ensures
            s == 0,
    {
        0
    }

    fn enabled(&self) -> (r: bool)
        ensures
            r == (self.enabled && self.dac_power),
    {
        self.enabled && self.dac_power
    }

    fn reset(&mut self)
        ensures
            *final(self) == old(self).spec_reset(),
    {
        self.volume_code = VolumeCode::Zero;
        self.enabled = false;
        self.dac_power = false;
        self.frequency = 0;
        self.frequency_timer.reload();
        self.position_counter = 0;
        self.length_counter.enabled = false;
        self.length_counter.reload(0)
    }
}

} // verus!
