use vstd::prelude::*;
use crate::bits::{BIT_0, BIT_7, lemma_u8_facts};
use crate::ppu::VRAMBank;

verus! {

/// CPU clock speed in Game Boy Color mode.
#[derive(Clone, Copy, Debug, PartialEq, Eq, Structural)]
pub enum Speed {
    Normal,
    Double,
}

impl Speed {
    pub open spec fn spec_not(self) -> Speed {
        match self {
            Speed::Normal => Speed::Double,
            Speed::Double => Speed::Normal,
        }
    }

    /// The other speed.
    pub fn not(self) -> (s: Speed)
        ensures
            s == self.spec_not(),
    {
        match self {
            Speed::Normal => Speed::Double,
            Speed::Double => Speed::Normal,
        }
    }

    pub fn default() -> (s: Speed)
        ensures
            s == Speed::Normal,
    {
        Speed::Normal
    }
}

/// Registers that only exist in Game Boy Color mode: banks and the speed switch (KEY1).
#[derive(Clone, Copy, Debug)]
pub struct CGBState {
    pub wram_bank: usize,
    pub vram_bank: VRAMBank,
    pub speed: Speed,
    pub prepare_speed_switch: bool,
}

impl CGBState {
    pub open spec fn spec_read_key1(self) -> u8 {
        (if self.prepare_speed_switch { BIT_0 } else { 0u8 }) | (if self.speed == Speed::Double { BIT_7 } else { 0u8 })
    }

    pub open spec fn spec_perform_speed_switch(self) -> (CGBState, bool) {
        if self.prepare_speed_switch {
            (CGBState { speed: self.speed.spec_not(), prepare_speed_switch: false, ..self }, true)
        } else {
            (self, false)
        }
    }

    pub open spec fn spec_default() -> CGBState {
        CGBState { prepare_speed_switch: false, speed: Speed::Normal, wram_bank: 1, vram_bank: VRAMBank::Bank0 }
    }

    pub fn default() -> (s: Self)
        ensures
            s == Self::spec_default(),
            !s.prepare_speed_switch,
            s.speed == Speed::Normal,
            s.wram_bank == 1,
            s.vram_bank == VRAMBank::Bank0,
    {
        Self { prepare_speed_switch: false, speed: Speed::Normal, wram_bank: 1, vram_bank: VRAMBank::Bank0 }
    }

    /// VBK: selects the VRAM bank from bit 0.
    pub fn set_vram_bank(&mut self, bank: u8)
        ensures
            *final(self) == (CGBState {
                vram_bank: if bank & 1 == 1 { VRAMBank::Bank1 } else { VRAMBank::Bank0 },
                ..*old(self)
            }),
    {
        self.vram_bank = if bank & 1 == 1 { VRAMBank::Bank1 } else { VRAMBank::Bank0 };
    }

    pub fn get_vram_bank(&self) -> (b: VRAMBank)
        ensures
            b == self.vram_bank,
    {
        self.vram_bank
    }

    /// KEY1 write: bit 0 arms the speed switch.
    pub fn write_key1(&mut self, value: u8)
        ensures
            *final(self) == (CGBState { prepare_speed_switch: value & BIT_0 == BIT_0, ..*old(self) }),
    {
        self.prepare_speed_switch = value & BIT_0 == BIT_0;
    }

    /// KEY1 read: bit 7 the current speed, bit 0 whether a switch is armed.
    pub fn read_key1(&self) -> (r: u8)
        ensures
            r == self.spec_read_key1(),
    {
        let speed_bit: u8 = match self.speed {
            Speed::Normal => 0,
            Speed::Double => BIT_7,
        };
        let switch_bit: u8 = if self.prepare_speed_switch { BIT_0 } else { 0 };
        switch_bit | speed_bit
    }

    /// Performs an armed speed switch; true when the speed changed.
    pub fn perform_speed_switch(&mut self) -> (switched: bool)
        ensures
            (*final(self), switched) == old(self).spec_perform_speed_switch(),
    {
        if self.prepare_speed_switch {
            self.speed = self.speed.not();
            self.prepare_speed_switch = false;
            true
        } else {
            false
        }
    }

    pub fn current_speed(&self) -> (s: Speed)
        ensures
            s == self.speed,
    {
        self.speed
    }
}

/// Arming the switch through KEY1 and performing it toggles the speed, disarms the
/// switch, and KEY1 then reports the new speed with bit 0 clear.
pub proof fn lemma_speed_switch(s: CGBState, value: u8)
    requires
        value & BIT_0 == BIT_0,
    ensures
        ({
            let armed = CGBState { prepare_speed_switch: value & BIT_0 == BIT_0, ..s };
            let (after, switched) = armed.spec_perform_speed_switch();
            &&& switched
            &&& after.speed == s.speed.spec_not()
            &&& !after.prepare_speed_switch
            &&& after.spec_read_key1() == (if s.speed == Speed::Normal { BIT_7 } else { 0u8 })
        }),
{
    lemma_u8_facts();
}

/// Without an armed switch nothing changes.
pub proof fn lemma_no_switch_unarmed(s: CGBState)
    requires
        !s.prepare_speed_switch,
    ensures
        s.spec_perform_speed_switch() == (s, false),
{
}

} // verus!
