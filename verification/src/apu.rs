pub mod channel;
pub mod frame_sequencer;
pub mod length_counter;
pub mod lfsr;
pub mod noise;
pub mod square;
pub mod sweep;
pub mod timer;
pub mod volume_envelope;
pub mod wave;

use vstd::prelude::*;
use crate::apu::channel::Channel;
use crate::apu::frame_sequencer::{FrameSequencer, TickResult, step_result};
use crate::apu::noise::Noise;
use crate::apu::square::Square;
use crate::apu::wave::Wave;
use crate::bits::{falling_edge, spec_falling_edge, lemma_u8_facts, BIT_4, BIT_5, BIT_7};
use crate::cgb::Speed;

verus! {

/// The audio processing unit: four channels, the frame sequencer and the master
/// registers NR50-NR52, with the register file at 0xFF10-0xFF3F.
#[derive(Clone, Copy, Debug)]
pub struct Apu {
    pub prev_div: u8,
    pub frame_sequencer: FrameSequencer,
    pub square1: Square,
    pub square2: Square,
    pub wave: Wave,
    pub noise: Noise,
    pub nr50: u8,
    pub nr51: u8,
    pub power_on: bool,
}

/// Bits of each register that read back as 1 whatever the register holds.
pub open spec fn unused_mask(addr: u16) -> u8 {
    if addr == 0xFF10 { 0x80 }
    else if addr == 0xFF11 { 0x3F }
    else if addr == 0xFF12 { 0x00 }
    else if addr == 0xFF13 { 0xFF }
    else if addr == 0xFF14 { 0xBF }
    else if addr == 0xFF15 { 0xFF }
    else if addr == 0xFF16 { 0x3F }
    else if addr == 0xFF17 { 0x00 }
    else if addr == 0xFF18 { 0xFF }
    else if addr == 0xFF19 { 0xBF }
    else if addr == 0xFF1A { 0x7F }
    else if addr == 0xFF1B { 0xFF }
    else if addr == 0xFF1C { 0x9F }
    else if addr == 0xFF1D { 0xFF }
    else if addr == 0xFF1E { 0xBF }
    else if addr == 0xFF1F { 0xFF }
    else if addr == 0xFF20 { 0xFF }
    else if addr == 0xFF21 { 0x00 }
    else if addr == 0xFF22 { 0x00 }
    else if addr == 0xFF23 { 0xBF }
    else if addr == 0xFF26 { 0x70 }
    else if 0xFF27 <= addr < 0xFF30 { 0xFF }
    else { 0x00 }
}

impl Apu {
    pub open spec fn wf(self) -> bool {
        &&& self.square1.wf()
        &&& self.square2.wf()
        &&& self.wave.wf()
        &&& self.noise.wf()
    }

    /// The register contents at `addr`, before the unused bits are forced to 1.
    pub open spec fn register_value(self, addr: u16) -> u8 {
        if addr == 0xFF10 { 0 }
        else if addr == 0xFF11 { self.square1.nrx1_value() }
        else if addr == 0xFF12 { self.square1.nrx2_value() }
        else if addr == 0xFF13 { self.square1.nrx3_value() }
        else if addr == 0xFF14 { self.square1.nrx4_value() }
        else if addr == 0xFF15 { 0 }
        else if addr == 0xFF16 { self.square2.nrx1_value() }
        else if addr == 0xFF17 { self.square2.nrx2_value() }
        else if addr == 0xFF18 { self.square2.nrx3_value() }
        else if addr == 0xFF19 { self.square2.nrx4_value() }
        else if addr == 0xFF1A { self.wave.nrx0_value() }
        else if addr == 0xFF1B { self.wave.nrx1_value() }
        else if addr == 0xFF1C { self.wave.nrx2_value() }
        else if addr == 0xFF1D { self.wave.nrx3_value() }
        else if addr == 0xFF1E { self.wave.nrx4_value() }
        else if addr == 0xFF1F { 0xFF }
        else if addr == 0xFF20 { self.noise.nrx1_value() }
        else if addr == 0xFF21 { self.noise.nrx2_value() }
        else if addr == 0xFF22 { self.noise.nrx3_value() }
        else if addr == 0xFF23 { self.noise.nrx4_value() }
        else if addr == 0xFF24 { self.nr50 }
        else if addr == 0xFF25 { self.nr51 }
        else if addr == 0xFF26 { self.spec_read_nr52() }
        else if addr == 0xFF76 { self.spec_read_pcm_12() }
        else if addr == 0xFF77 { self.spec_read_pcm_34() }
        else if 0xFF30 <= addr < 0xFF40 { self.wave.wave_ram@[addr - 0xFF30] }
        else { 0 }
    }

    /// What a read of `addr` returns.
    pub open spec fn spec_read(self, addr: u16) -> u8 {
        self.register_value(addr) | unused_mask(addr)
    }

    pub open spec fn spec_read_nr52(self) -> u8 {
        if !self.power_on {
            0
        } else {
            BIT_7 | (if self.square1.enabled { 1u8 } else { 0u8 }) | (if self.square2.enabled { 2u8 } else { 0u8 })
                | (if self.wave.enabled && self.wave.dac_power { 4u8 } else { 0u8 })
                | (if self.noise.enabled { 8u8 } else { 0u8 })
        }
    }

    pub open spec fn spec_read_pcm_12(self) -> u8 {
        (self.square2.spec_sample() << 4u8) | self.square1.spec_sample()
    }

    pub open spec fn spec_read_pcm_34(self) -> u8 {
        self.noise.spec_sample() << 4u8
    }

    /// Every length counter clocked once.
    pub open spec fn spec_tick_length_ctr(self) -> Apu {
        Apu {
            square1: self.square1.spec_tick_length_ctr(),
            square2: self.square2.spec_tick_length_ctr(),
            wave: self.wave.spec_tick_length_ctr(),
            noise: self.noise.spec_tick_length_ctr(),
            ..self
        }
    }

    /// Every volume envelope clocked once (the wave channel has none).
    pub open spec fn spec_tick_vol_env(self) -> Apu {
        Apu {
            square1: Square { volume_envelope: self.square1.volume_envelope.spec_tick(), ..self.square1 },
            square2: Square { volume_envelope: self.square2.volume_envelope.spec_tick(), ..self.square2 },
            noise: Noise { volume_envelope: self.noise.volume_envelope.spec_tick(), ..self.noise },
            ..self
        }
    }

    /// One step of the frame sequencer and the units it clocks.
    pub open spec fn spec_step_frame_sequencer(self) -> Apu {
        let fs = self.frame_sequencer.spec_tick();
        let a = Apu { frame_sequencer: fs, ..self };
        match step_result(fs.value) {
            TickResult::LengthCtrl => a.spec_tick_length_ctr(),
            TickResult::VolumeEnv => a.spec_tick_vol_env(),
            TickResult::LengthCtrlAndSweep => a.spec_tick_length_ctr(),
            TickResult::Nothing => a,
        }
    }

    /// Each enabled channel's frequency timer clocked once.
    pub open spec fn spec_tick_channels(self) -> Apu {
        Apu {
            square1: if self.square1.enabled { self.square1.spec_tick() } else { self.square1 },
            square2: if self.square2.enabled { self.square2.spec_tick() } else { self.square2 },
            wave: if self.wave.enabled && self.wave.dac_power { self.wave.spec_tick() } else { self.wave },
            noise: if self.noise.enabled { self.noise.spec_tick() } else { self.noise },
            ..self
        }
    }

    /// The bit of DIV whose falling edge clocks the frame sequencer (512 Hz).
    pub open spec fn div_mask(speed: Speed) -> u8 {
        match speed {
            Speed::Double => BIT_5,
            Speed::Normal => BIT_4,
        }
    }

    pub open spec fn spec_step_t_state(self, div: u8, speed: Speed) -> Apu {
        if !self.power_on {
            Apu { prev_div: div, ..self }
        } else {
            let edge = spec_falling_edge(self.prev_div, div, Self::div_mask(speed));
            let a = Apu { prev_div: div, ..self }.spec_tick_channels();
            if edge {
                a.spec_step_frame_sequencer()
            } else {
                a
            }
        }
    }

    pub open spec fn spec_set_power_state(self, on: bool) -> Apu {
        if on {
            Apu { power_on: true, ..self }
        } else {
            Apu {
                power_on: false,
                square1: self.square1.spec_reset(),
                square2: self.square2.spec_reset(),
                wave: self.wave.spec_reset(),
                noise: self.noise.spec_reset(),
                nr50: 0,
                nr51: 0,
                ..self
            }
        }
    }

    /// The effect of writing `value` to register `addr` (wave RAM excepted).
    pub open spec fn spec_write(self, addr: u16, value: u8) -> Apu {
        if !self.power_on && addr != 0xFF26 { self }
        else if addr == 0xFF11 { Apu { square1: self.square1.spec_write_nrx1(value), ..self } }
        else if addr == 0xFF12 { Apu { square1: self.square1.spec_write_nrx2(value), ..self } }
        else if addr == 0xFF13 { Apu { square1: self.square1.spec_write_nrx3(value), ..self } }
        else if addr == 0xFF14 { Apu { square1: self.square1.spec_write_nrx4(value), ..self } }
        else if addr == 0xFF16 { Apu { square2: self.square2.spec_write_nrx1(value), ..self } }
        else if addr == 0xFF17 { Apu { square2: self.square2.spec_write_nrx2(value), ..self } }
        else if addr == 0xFF18 { Apu { square2: self.square2.spec_write_nrx3(value), ..self } }
        else if addr == 0xFF19 { Apu { square2: self.square2.spec_write_nrx4(value), ..self } }
        else if addr == 0xFF1A { Apu { wave: self.wave.spec_write_nrx0(value), ..self } }
        else if addr == 0xFF1B { Apu { wave: self.wave.spec_write_nrx1(value), ..self } }
        else if addr == 0xFF1C { Apu { wave: self.wave.spec_write_nrx2(value), ..self } }
        else if addr == 0xFF1D { Apu { wave: self.wave.spec_write_nrx3(value), ..self } }
        else if addr == 0xFF1E { Apu { wave: self.wave.spec_write_nrx4(value), ..self } }
        else if addr == 0xFF20 { Apu { noise: self.noise.spec_write_nrx1(value), ..self } }
        else if addr == 0xFF21 { Apu { noise: self.noise.spec_write_nrx2(value), ..self } }
        else if addr == 0xFF22 { Apu { noise: self.noise.spec_write_nrx3(value), ..self } }
        else if addr == 0xFF23 { Apu { noise: self.noise.spec_write_nrx4(value), ..self } }
        else if addr == 0xFF24 { Apu { nr50: value, ..self } }
        else if addr == 0xFF25 { Apu { nr51: value, ..self } }
        else if addr == 0xFF26 { self.spec_set_power_state(value & 0x80 != 0) }
        else { self }
    }

    /// True for the addresses of wave RAM.
    pub open spec fn is_wave_ram(addr: u16) -> bool {
        0xFF30 <= addr < 0xFF40
    }

    pub open spec fn spec_default(wave_ram: [u8; 32]) -> Apu {
        Apu {
            prev_div: 0,
            frame_sequencer: FrameSequencer { value: 0 },
            square1: Square::spec_default(true),
            square2: Square::spec_default(false),
            wave: Wave::spec_default(wave_ram),
            noise: Noise::spec_new(),
            nr50: 0,
            nr51: 0,
            power_on: false,
        }
    }

    /// A powered-off unit with every channel at its power-on state.
    pub fn default() -> (a: Self)
        ensures
            a == Self::spec_default(a.wave.wave_ram),
            a.wave.wave_ram@ == Seq::new(32, |i: int| 0u8),
            a.wf(),
    {
        Self {
            prev_div: 0,
            frame_sequencer: FrameSequencer { value: 0 },
            square1: Square::sweeper(),
            square2: Square::default(),
            wave: Wave::default(),
            noise: Noise::default(),
            nr50: 0,
            nr51: 0,
            power_on: false,
        }
    }

    /// One T-state: clocks the enabled channels, and the frame sequencer on a falling
    /// edge of DIV bit 4 (bit 5 at double speed). A powered-off unit only samples DIV.
    pub fn step_t_state(&mut self, div: u8, speed: Speed)
        requires
            old(self).wf(),
        ensures
            *final(self) == old(self).spec_step_t_state(div, speed),
            final(self).wf(),
    {
        if !self.power_on {
            self.prev_div = div;
            return;
        }
        let div_bit_mask = match speed {
            Speed::Double => BIT_5,
            Speed::Normal => BIT_4,
        };
        let increment_clock = falling_edge(self.prev_div, div, div_bit_mask);
        self.prev_div = div;

        if self.square1.enabled() {
            self.square1.tick();
        }
        if self.square2.enabled() {
            self.square2.tick();
        }
        if self.wave.enabled() {
            self.wave.tick();
        }
        if self.noise.enabled() {
            self.noise.tick();
        }
        if increment_clock {
            self.step_frame_sequencer();
        }
    }

    fn step_frame_sequencer(&mut self)
        requires
            old(self).wf(),
        ensures
            *final(self) == old(self).spec_step_frame_sequencer(),
            final(self).wf(),
    {
        match self.frame_sequencer.tick() {
            TickResult::LengthCtrl => self.tick_length_ctr(),
            TickResult::VolumeEnv => self.tick_vol_env(),
            TickResult::LengthCtrlAndSweep => {
                self.tick_length_ctr();
                self.tick_sweep();
            },
            TickResult::Nothing => {},
        }
    }

    fn tick_sweep(&mut self)
        requires
            old(self).wf(),
        ensures
            *final(self) == *old(self),
    {
        self.square1.tick_sweep();
    }

    fn tick_length_ctr(&mut self)
        requires
            old(self).wf(),
        ensures
            *final(self) == old(self).spec_tick_length_ctr(),
            final(self).wf(),
    {
        self.square1.tick_length_ctr();
        self.square2.tick_length_ctr();
        self.wave.tick_length_ctr();
        self.noise.tick_length_ctr();
    }

    fn tick_vol_env(&mut self)
        requires
            old(self).wf(),
        ensures
            *final(self) == old(self).spec_tick_vol_env(),
            final(self).wf(),
    {
        self.square1.tick_vol_env();
        self.square2.tick_vol_env();
        self.wave.tick_vol_env();
        self.noise.tick_vol_env();
    }

    fn set_power_state(&mut self, state: bool)
        requires
            old(self).wf(),
        ensures
            *final(self) == old(self).spec_set_power_state(state),
            final(self).wf(),
    {
        self.power_on = state;
        if !state {
            self.square1.reset();
            self.square2.reset();
            self.wave.reset();
            self.noise.reset();
            self.nr50 = 0;
            self.nr51 = 0;
        }
    }

    fn read_nr52(&self) -> (r: u8)
        requires
            self.wf(),
        ensures
            r == self.spec_read_nr52(),
    {
        if !self.power_on {
            return 0;
        }
        let square1: u8 = if self.square1.enabled() { 1 } else { 0 };
        let square2: u8 = if self.square2.enabled() { 2 } else { 0 };
        let wave: u8 = if self.wave.enabled() { 4 } else { 0 };
        let noise: u8 = if self.noise.enabled() { 8 } else { 0 };
        BIT_7 | square1 | square2 | wave | noise
    }

    fn read_pcm_12(&self) -> (r: u8)
        requires
            self.wf(),
        ensures
            r == self.spec_read_pcm_12(),
    {
        (self.square2.sample() << 4u8) | self.square1.sample()
    }

    fn read_pcm_34(&self) -> (r: u8)
        requires
            self.wf(),
        ensures
            r == self.spec_read_pcm_34(),
    {
        self.noise.sample() << 4u8
    }

    fn unused_mask(addr: u16) -> (m: u8)
        ensures
            m == unused_mask(addr),
    {
        match addr {
            0xFF10 => 0x80,
            0xFF11 => 0x3F,
            0xFF12 => 0x00,
            0xFF13 => 0xFF,
            0xFF14 => 0xBF,
            0xFF15 => 0xFF,
            0xFF16 => 0x3F,
            0xFF17 => 0x00,
            0xFF18 => 0xFF,
            0xFF19 => 0xBF,
            0xFF1A => 0x7F,
            0xFF1B => 0xFF,
            0xFF1C => 0x9F,
            0xFF1D => 0xFF,
            0xFF1E => 0xBF,
            0xFF1F => 0xFF,
            0xFF20 => 0xFF,
            0xFF21 => 0x00,
            0xFF22 => 0x00,
            0xFF23 => 0xBF,
            0xFF24 => 0x00,
            0xFF25 => 0x00,
            0xFF26 => 0x70,
            0xFF27..=0xFF2F => 0xFF,
            _ => 0x00,
        }
    }

    /// Reads register `addr`; unused bits read as 1.
    pub fn read(&self, addr: u16) -> (r: u8)
        requires
            self.wf(),
        ensures
            r == self.spec_read(addr),
    {
        let unused_mask = Self::unused_mask(addr);
        let read_result = match addr {
            0xFF10 => self.square1.read_nrx0(),
            0xFF11 => self.square1.read_nrx1(),
            0xFF12 => self.square1.read_nrx2(),
            0xFF13 => self.square1.read_nrx3(),
            0xFF14 => self.square1.read_nrx4(),
            0xFF15 => self.square2.read_nrx0(),
            0xFF16 => self.square2.read_nrx1(),
            0xFF17 => self.square2.read_nrx2(),
            0xFF18 => self.square2.read_nrx3(),
            0xFF19 => self.square2.read_nrx4(),
            0xFF1A => self.wave.read_nrx0(),
            0xFF1B => self.wave.read_nrx1(),
            0xFF1C => self.wave.read_nrx2(),
            0xFF1D => self.wave.read_nrx3(),
            0xFF1E => self.wave.read_nrx4(),
            0xFF1F => self.noise.read_nrx0(),
            0xFF20 => self.noise.read_nrx1(),
            0xFF21 => self.noise.read_nrx2(),
            0xFF22 => self.noise.read_nrx3(),
            0xFF23 => self.noise.read_nrx4(),
            0xFF24 => self.nr50,
            0xFF25 => self.nr51,
            0xFF26 => self.read_nr52(),
            0xFF76 => self.read_pcm_12(),
            0xFF77 => self.read_pcm_34(),
            0xFF30..=0xFF3F => self.wave.wave_ram[(addr - 0xFF30) as usize],
            _ => 0x00,
        };
        read_result | unused_mask
    }

    /// Writes register `addr`. While the unit is off only NR52 accepts writes.
    pub fn write(&mut self, addr: u16, value: u8)
        requires
            old(self).wf(),
        ensures
            final(self).wf(),
            !(old(self).power_on && Self::is_wave_ram(addr)) ==> *final(self) == old(self).spec_write(addr, value),
            old(self).power_on && Self::is_wave_ram(addr) ==> {
                &&& final(self).wave.wave_ram@ == old(self).wave.wave_ram@.update(addr - 0xFF30, value)
                &&& *final(self) == (Apu {
                    wave: Wave { wave_ram: final(self).wave.wave_ram, ..old(self).wave },
                    ..*old(self)
                })
            },
    {
        if !self.power_on && addr != 0xFF26 {
            return;
        }
        match addr {
            0xFF10 => self.square1.write_nrx0(value),
            0xFF11 => self.square1.write_nrx1(value),
            0xFF12 => self.square1.write_nrx2(value),
            0xFF13 => self.square1.write_nrx3(value),
            0xFF14 => self.square1.write_nrx4(value),
            0xFF15 => self.square2.write_nrx0(value),
            0xFF16 => self.square2.write_nrx1(value),
            0xFF17 => self.square2.write_nrx2(value),
            0xFF18 => self.square2.write_nrx3(value),
            0xFF19 => self.square2.write_nrx4(value),
            0xFF1A => self.wave.write_nrx0(value),
            0xFF1B => self.wave.write_nrx1(value),
            0xFF1C => self.wave.write_nrx2(value),
            0xFF1D => self.wave.write_nrx3(value),
            0xFF1E => self.wave.write_nrx4(value),
            0xFF1F => self.noise.write_nrx0(value),
            0xFF20 => self.noise.write_nrx1(value),
            0xFF21 => self.noise.write_nrx2(value),
            0xFF22 => self.noise.write_nrx3(value),
            0xFF23 => self.noise.write_nrx4(value),
            0xFF24 => self.nr50 = value,
            0xFF25 => self.nr51 = value,
            0xFF26 => self.set_power_state(value & 0b1000_0000 != 0),
            0xFF30..=0xFF3F => self.wave.wave_ram[(addr - 0xFF30) as usize] = value,
            _ => {},
        }
    }
}

/// While the unit is powered off, writes to every register but NR52 are ignored.
pub proof fn lemma_writes_ignored_when_off(a: Apu, addr: u16, value: u8)
    requires
        !a.power_on,
        addr != 0xFF26,
    ensures
        a.spec_write(addr, value) == a,
{
}

/// Reading a wave RAM byte gives back what was last written there while powered on.
pub proof fn lemma_wave_ram_read_after_write(a: Apu, b: Apu, addr: u16, value: u8)
    requires
        a.power_on,
        Apu::is_wave_ram(addr),
        b.wave.wave_ram@ == a.wave.wave_ram@.update(addr - 0xFF30, value),
    ensures
        b.spec_read(addr) == value,
{
    lemma_u8_facts();
}

/// While the unit is on, the master volume (NR50) and panning (NR51) registers read
/// back exactly what was last written to them, and writing one leaves the other alone.
pub proof fn lemma_master_registers_read_back(a: Apu, addr: u16, value: u8)
    requires
        a.power_on,
        addr == 0xFF24 || addr == 0xFF25,
    ensures
        a.spec_write(addr, value).spec_read(addr) == value,
        addr == 0xFF24 ==> a.spec_write(addr, value).spec_read(0xFF25) == a.spec_read(0xFF25),
        addr == 0xFF25 ==> a.spec_write(addr, value).spec_read(0xFF24) == a.spec_read(0xFF24),
{
    lemma_u8_facts();
}

/// Powering the unit off silences every channel: NR52 then reads 0x70.
pub proof fn lemma_power_off_silences(a: Apu)
    ensures
        a.spec_set_power_state(false).spec_read(0xFF26) == 0x70,
        !a.spec_set_power_state(false).square1.enabled,
        !a.spec_set_power_state(false).square2.enabled,
        !a.spec_set_power_state(false).wave.enabled,
        !a.spec_set_power_state(false).noise.enabled,
{
    lemma_u8_facts();
}

/// The text of hexadecimal digit `d` (uppercase).
pub open spec fn hex_digit_text(d: u16) -> Seq<char> {
    if d == 0 { "0"@ }
    else if d == 1 { "1"@ }
    else if d == 2 { "2"@ }
    else if d == 3 { "3"@ }
    else if d == 4 { "4"@ }
    else if d == 5 { "5"@ }
    else if d == 6 { "6"@ }
    else if d == 7 { "7"@ }
    else if d == 8 { "8"@ }
    else if d == 9 { "9"@ }
    else if d == 10 { "A"@ }
    else if d == 11 { "B"@ }
    else if d == 12 { "C"@ }
    else if d == 13 { "D"@ }
    else if d == 14 { "E"@ }
    else { "F"@ }
}

/// `n` in uppercase hexadecimal without leading zeros.
pub open spec fn hex_text(n: u16) -> Seq<char>
    decreases n,
{
    if n < 16 {
        hex_digit_text(n)
    } else {
        hex_text(n / 16) + hex_digit_text(n % 16)
    }
}

/// The name of a sound register, or else the address as `0x` and uppercase hex.
pub open spec fn register_name(addr: u16) -> Seq<char> {
    if addr == 0xFF10 { "nr10"@ }
    else if addr == 0xFF11 { "nr11"@ }
    else if addr == 0xFF12 { "nr12"@ }
    else if addr == 0xFF13 { "nr13"@ }
    else if addr == 0xFF14 { "nr14"@ }
    else if addr == 0xFF15 { "nr20"@ }
    else if addr == 0xFF16 { "nr21"@ }
    else if addr == 0xFF17 { "nr22"@ }
    else if addr == 0xFF18 { "nr23"@ }
    else if addr == 0xFF19 { "nr24"@ }
    else if addr == 0xFF1A { "nr30"@ }
    else if addr == 0xFF1B { "nr31"@ }
    else if addr == 0xFF1C { "nr32"@ }
    else if addr == 0xFF1D { "nr33"@ }
    else if addr == 0xFF1E { "nr34"@ }
    else if addr == 0xFF1F { "nr40"@ }
    else if addr == 0xFF20 { "nr41"@ }
    else if addr == 0xFF21 { "nr42"@ }
    else if addr == 0xFF22 { "nr43"@ }
    else if addr == 0xFF23 { "nr44"@ }
    else if addr == 0xFF24 { "nr50"@ }
    else if addr == 0xFF25 { "nr51"@ }
    else if addr == 0xFF26 { "nr52"@ }
    else { "0x"@ + hex_text(addr) }
}

fn hex_digit(d: u16) -> (s: &'static str)
    requires
        d < 16,
    ensures
        s@ == hex_digit_text(d),
{
    match d {
        0 => "0",
        1 => "1",
        2 => "2",
        3 => "3",
        4 => "4",
        5 => "5",
        6 => "6",
        7 => "7",
        8 => "8",
        9 => "9",
        10 => "A",
        11 => "B",
        12 => "C",
        13 => "D",
        14 => "E",
        _ => "F",
    }
}

fn append_hex(s: &mut String, n: u16)
    ensures
        final(s)@ == old(s)@ + hex_text(n),
    decreases n,
{
    if n >= 16 {
        append_hex(s, n / 16);
    }
    s.append(hex_digit(n % 16));
    proof {
        if n >= 16 {
            assert(old(s)@ + hex_text(n / 16) + hex_digit_text(n % 16) =~= old(s)@ + hex_text(n));
        }
    }
}

/// A readable name for a sound register address, for logs.
pub fn print_addr(addr: u16) -> (s: String)
    ensures
        s@ == register_name(addr),
{
    let name = match addr {
        0xFF10 => "nr10",
        0xFF11 => "nr11",
        0xFF12 => "nr12",
        0xFF13 => "nr13",
        0xFF14 => "nr14",
        0xFF15 => "nr20",
        0xFF16 => "nr21",
        0xFF17 => "nr22",
        0xFF18 => "nr23",
        0xFF19 => "nr24",
        0xFF1A => "nr30",
        0xFF1B => "nr31",
        0xFF1C => "nr32",
        0xFF1D => "nr33",
        0xFF1E => "nr34",
        0xFF1F => "nr40",
        0xFF20 => "nr41",
        0xFF21 => "nr42",
        0xFF22 => "nr43",
        0xFF23 => "nr44",
        0xFF24 => "nr50",
        0xFF25 => "nr51",
        0xFF26 => "nr52",
        _ => {
            let mut s = String::from_str("0x");
            append_hex(&mut s, addr);
            return s;
        },
    };
    String::from_str(name)
}

/// The frame sequencer clocks every volume envelope (square 1, square 2, noise) once on
/// step 7 of its eight-step cycle, and leaves them alone on every other step.
pub proof fn lemma_envelopes_clocked_on_step_7(a: Apu)
    ensures
        ({
            let b = a.spec_step_frame_sequencer();
            &&& b.frame_sequencer.value % 8 == 7 ==> {
                &&& b.square1.volume_envelope == a.square1.volume_envelope.spec_tick()
                &&& b.square2.volume_envelope == a.square2.volume_envelope.spec_tick()
                &&& b.noise.volume_envelope == a.noise.volume_envelope.spec_tick()
            }
            &&& b.frame_sequencer.value % 8 != 7 ==> {
                &&& b.square1.volume_envelope == a.square1.volume_envelope
                &&& b.square2.volume_envelope == a.square2.volume_envelope
                &&& b.noise.volume_envelope == a.noise.volume_envelope
            }
        }),
{
}

/// The frame sequencer clocks every length counter (square 1, square 2, wave, noise) on
/// the even steps of its cycle (0, 2, 4, 6), and leaves them alone on the odd steps.
pub proof fn lemma_length_counters_clocked_on_even_steps(a: Apu)
    ensures
        ({
            let b = a.spec_step_frame_sequencer();
            &&& b.frame_sequencer.value % 2 == 0 ==> {
                &&& b.square1.length_counter == a.square1.length_counter.spec_tick().0
                &&& b.square2.length_counter == a.square2.length_counter.spec_tick().0
                &&& b.wave.length_counter == a.wave.length_counter.spec_tick().0
                &&& b.noise.length_counter == a.noise.length_counter.spec_tick().0
            }
            &&& b.frame_sequencer.value % 2 == 1 ==> {
                &&& b.square1.length_counter == a.square1.length_counter
                &&& b.square2.length_counter == a.square2.length_counter
                &&& b.wave.length_counter == a.wave.length_counter
                &&& b.noise.length_counter == a.noise.length_counter
            }
        }),
{
    let v = a.spec_step_frame_sequencer().frame_sequencer.value;
    assert(v % 8 == 0 || v % 8 == 2 || v % 8 == 4 || v % 8 == 6 <==> v % 2 == 0);
}

} // verus!
