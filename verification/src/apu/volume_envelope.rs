use vstd::prelude::*;
use crate::apu::timer::Timer;
use crate::bits::{wrap8, BIT_3};

verus! {

#[derive(Clone, Copy, Debug, PartialEq, Eq, Structural)]
pub enum Direction {
    Decrease,
    Increase,
}

impl Direction {
    /// The step by which the volume moves.
    pub open spec fn spec_delta(self) -> i8 {
        match self {
            Direction::Decrease => -1i8,
            Direction::Increase => 1i8,
        }
    }

    /// The bit that encodes the direction in NRx2.
    pub open spec fn spec_bit(self) -> u8 {
        match self {
            Direction::Decrease => 0,
            Direction::Increase => 1,
        }
    }

    fn bit(self) -> (b: u8)
        ensures
            b == self.spec_bit(),
    {
        match self {
            Direction::Decrease => 0,
            Direction::Increase => 1,
        }
    }
}

impl From<Direction> for i8 {
    fn from(val: Direction) -> (r: i8) {
        match val {
            Direction::Decrease => -1,
            Direction::Increase => 1,
        }
    }
}

impl vstd::std_specs::convert::FromSpecImpl<Direction> for i8 {
    open spec fn obeys_from_spec() -> bool {
        true
    }

    open spec fn from_spec(v: Direction) -> i8 {
        v.spec_delta()
    }
}

/// The volume envelope: every `period + 1` clocks the volume moves one step in
/// `direction`, staying within 0..=15.
#[derive(Clone, Copy, Debug)]
pub struct VolumeEnvelope {
    pub initial_volume: u8,
    pub direction: Direction,
    pub volume: u8,
    pub timer: Timer,
}

impl VolumeEnvelope {
    pub open spec fn spec_read_byte(self) -> u8 {
        (self.initial_volume << 4u8) | ((self.timer.period as u8) << 3u8) | self.direction.spec_bit()
    }

    pub open spec fn spec_write_byte(self, value: u8) -> VolumeEnvelope {
        VolumeEnvelope {
            initial_volume: value & 0x0F,
            timer: Timer { period: (value & 0x07) as u16, ..self.timer },
            direction: if value & BIT_3 == BIT_3 { Direction::Increase } else { Direction::Decrease },
            ..self
        }
    }

    /// The volume one step further in the current direction, if it stays within 0..=15.
    pub open spec fn stepped_volume(self) -> u8 {
        let v = wrap8(self.volume + self.direction.spec_delta());
        if v <= 15 {
            v
        } else {
            self.volume
        }
    }

    /// One 64 Hz clock.
    pub open spec fn spec_tick(self) -> VolumeEnvelope {
        let (timer, fired) = self.timer.spec_tick();
        if fired && timer.period != 0 {
            VolumeEnvelope { timer, volume: self.stepped_volume(), ..self }
        } else {
            VolumeEnvelope { timer, ..self }
        }
    }

    pub open spec fn spec_default() -> VolumeEnvelope {
        VolumeEnvelope {
            initial_volume: 0,
            direction: Direction::Decrease,
            volume: 0,
            timer: Timer { counter: 0, period: 0 },
        }
    }

    pub fn default() -> (e: Self)
        ensures
            e == Self::spec_default(),
    {
        Self { initial_volume: 0, direction: Direction::Decrease, volume: 0, timer: Timer::new(0) }
    }

    pub fn read_byte(&self) -> (r: u8)
        ensures
            r == self.spec_read_byte(),
    {
        (self.initial_volume << 4u8) | ((self.timer.period as u8) << 3u8) | self.direction.bit()
    }

    pub fn write_byte(&mut self, value: u8)
        ensures
            *final(self) == old(self).spec_write_byte(value),
    {
        self.initial_volume = value & 0b11110000 >> 4u8;
        assert(value & (0b11110000u8 >> 4u8) == value & 0x0F) by (bit_vector);
        self.timer.period = (value & 0b111) as u16;
        self.direction = if value & BIT_3 == BIT_3 {
            Direction::Increase
        } else {
            Direction::Decrease
        };
    }

    pub fn tick(&mut self)
        ensures
            *final(self) == old(self).spec_tick(),
    {
        if self.timer.tick() {
            if self.timer.period == 0 {
                return;
            }
            let delta: i8 = self.direction.into();
            let new_volume = self.volume.wrapping_add_signed(delta);
            if new_volume <= 0xF {
                self.volume = new_volume;
            }
        }
    }

    /// Restarts the envelope's clock so that its next tick fires.
    pub fn reload(&mut self)
        ensures
            *final(self) == (VolumeEnvelope { timer: Timer { counter: 0, ..old(self).timer }, ..*old(self) }),
    {
        self.timer.counter = 0;
    }
}

/// The volume stays within 0..=15 and moves by at most one step per clock.
pub proof fn lemma_volume_bounded(e: VolumeEnvelope)
    requires
        e.volume <= 15,
    ensures
        e.spec_tick().volume <= 15,
        e.spec_tick().volume == e.volume
            || e.spec_tick().volume == e.volume + e.direction.spec_delta(),
{
}

} // verus!
