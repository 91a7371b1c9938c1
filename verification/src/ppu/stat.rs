use vstd::prelude::*;
use crate::bits::{BIT_0, BIT_1, BIT_2, BIT_3, BIT_4, BIT_5, BIT_6, BIT_7};
use crate::ppu::PPUMode;

verus! {

/// The LCD status register (STAT, 0xFF41).
#[derive(Clone, Copy, Debug, Default)]
pub struct Stat(pub u8);

pub const MODE_MASK: u8 = 0x03;
pub const LYC_EQ_LY: u8 = BIT_2;
pub const H_BLANK_IE: u8 = BIT_3;
pub const V_BLANK_IE: u8 = BIT_4;
pub const OAM_IE: u8 = BIT_5;
pub const LYC_EQ_LY_IE: u8 = BIT_6;
pub const UNUSED: u8 = BIT_7;

impl Stat {
    pub open spec fn has(self, bit: u8) -> bool {
        self.0 & bit == bit
    }

    pub open spec fn spec_int_enable(self, mode: PPUMode) -> bool {
        match mode {
            PPUMode::Draw => false,
            PPUMode::HBlank => self.has(H_BLANK_IE),
            PPUMode::VBlank => self.has(V_BLANK_IE),
            PPUMode::OamScan => self.has(OAM_IE),
        }
    }

    /// The value read back: bit 7 always set, and only that while the LCD is off.
    pub fn read(&self, enabled: bool) -> (r: u8)
        ensures
            r == (if enabled { self.0 | UNUSED } else { UNUSED }),
    {
        if enabled {
            self.0 | UNUSED
        } else {
            UNUSED
        }
    }

    /// The mode bits are read-only: a write leaves them clear.
    pub fn write(&mut self, value: u8)
        ensures
            final(self).0 == value & !MODE_MASK,
    {
        self.0 = value & !MODE_MASK;
    }

    /// Whether entering `mode` raises the STAT interrupt.
    pub fn int_enable(&self, mode: PPUMode) -> (r: bool)
        ensures
            r == self.spec_int_enable(mode),
    {
        match mode {
            PPUMode::Draw => false,
            PPUMode::HBlank => self.has_bit(H_BLANK_IE),
            PPUMode::VBlank => self.has_bit(V_BLANK_IE),
            PPUMode::OamScan => self.has_bit(OAM_IE),
        }
    }

    pub fn lyc_eq_ly(&self) -> (r: bool)
        ensures
            r == self.has(LYC_EQ_LY),
    {
        self.has_bit(LYC_EQ_LY)
    }

    pub fn lyc_eq_ly_ie(&self) -> (r: bool)
        ensures
            r == self.has(LYC_EQ_LY_IE),
    {
        self.has_bit(LYC_EQ_LY_IE)
    }

    pub fn set_lyc_eq_ly(&mut self, value: bool)
        ensures
            final(self).0 == (if value { old(self).0 | LYC_EQ_LY } else { old(self).0 & !LYC_EQ_LY }),
    {
        self.set(LYC_EQ_LY, value);
    }

    fn has_bit(&self, bit: u8) -> (r: bool)
        ensures
            r == self.has(bit),
    {
        self.0 & bit == bit
    }

    fn set(&mut self, bit: u8, value: bool)
        ensures
            final(self).0 == (if value { old(self).0 | bit } else { old(self).0 & !bit }),
    {
        if value {
            self.0 = self.0 | bit;
        } else {
            self.0 = self.0 & !bit;
        }
    }
}

/// Setting the coincidence flag is seen by `lyc_eq_ly` and touches no other bit.
pub proof fn lemma_coincidence_flag(s: Stat, value: bool)
    ensures
        ({
            let v = if value { s.0 | LYC_EQ_LY } else { s.0 & !LYC_EQ_LY };
            &&& Stat(v).has(LYC_EQ_LY) == value
            &&& v & !LYC_EQ_LY == s.0 & !LYC_EQ_LY
        }),
{
    let x = s.0;
    assert((x | 4u8) & 4u8 == 4u8 && (x & !4u8) & 4u8 != 4u8) by (bit_vector);
    assert((x | 4u8) & !4u8 == x & !4u8 && (x & !4u8) & !4u8 == x & !4u8) by (bit_vector);
}

} // verus!
