use vstd::prelude::*;
use crate::bits::{BIT_0, BIT_1, BIT_2, BIT_3, BIT_4, BIT_5, BIT_6, BIT_7};
use crate::ppu::FetcherMode;
use crate::ppu::renderer::{AddressingMode, SpriteHeight};

verus! {

/// The LCD control register (LCDC, 0xFF40).
#[derive(Clone, Copy, Debug, Default)]
pub struct Lcdc(pub u8);

pub const BG_DISPLAY_ENABLE: u8 = BIT_0;
pub const OBJ_DISPLAY_ENABLE: u8 = BIT_1;
pub const OBJ_SIZE: u8 = BIT_2;
pub const BG_TILE_MAP_DISPLAY_SELECT: u8 = BIT_3;
pub const BG_AND_WINDOW_TILE_DATA_SELECT: u8 = BIT_4;
pub const WINDOW_DISPLAY_ENABLE: u8 = BIT_5;
pub const WINDOW_TILE_MAP_DISPLAY_SELECT: u8 = BIT_6;
pub const DISPLAY_ENABLE: u8 = BIT_7;

impl Lcdc {
    /// Every bit of `bits` is set.
    pub open spec fn has(self, bits: u8) -> bool {
        self.0 & bits == bits
    }

    /// The tile-map offset in VRAM for the background or the window.
    pub open spec fn spec_tile_map_offset(self, mode: FetcherMode) -> u16 {
        let flag = match mode {
            FetcherMode::Window => WINDOW_TILE_MAP_DISPLAY_SELECT,
            FetcherMode::Background => BG_TILE_MAP_DISPLAY_SELECT,
        };
        if self.has(flag) { 0x1C00 } else { 0x1800 }
    }

    pub fn read(&self) -> (r: u8)
        ensures
            r == self.0,
    {
        self.0
    }

    pub fn write(&mut self, value: u8)
        ensures
            final(self).0 == value,
    {
        self.0 = value;
    }

    pub fn obj_size(&self) -> (h: SpriteHeight)
        ensures
            h == (if self.has(OBJ_SIZE) { SpriteHeight::Double } else { SpriteHeight::Single }),
    {
        if self.is_set(OBJ_SIZE) {
            SpriteHeight::Double
        } else {
            SpriteHeight::Single
        }
    }

    pub fn obj_enable(&self) -> (r: bool)
        ensures
            r == self.has(OBJ_DISPLAY_ENABLE),
    {
        self.is_set(OBJ_DISPLAY_ENABLE)
    }

    pub fn addressing_mode(&self) -> (m: AddressingMode)
        ensures
            m == (if self.has(BG_AND_WINDOW_TILE_DATA_SELECT) { AddressingMode::Signed } else { AddressingMode::Unsigned }),
    {
        if self.is_set(BG_AND_WINDOW_TILE_DATA_SELECT) {
            AddressingMode::Signed
        } else {
            AddressingMode::Unsigned
        }
    }

    pub fn tile_map_offset(&self, mode: FetcherMode) -> (r: u16)
        ensures
            r == self.spec_tile_map_offset(mode),
    {
        let flag = match mode {
            FetcherMode::Window => WINDOW_TILE_MAP_DISPLAY_SELECT,
            FetcherMode::Background => BG_TILE_MAP_DISPLAY_SELECT,
        };
        if self.is_set(flag) {
            0x1C00
        } else {
            0x1800
        }
    }

    /// The window shows only when both the window and the background are enabled.
    pub fn win_enabled(&self) -> (r: bool)
        ensures
            r == self.has(WINDOW_DISPLAY_ENABLE | BG_DISPLAY_ENABLE),
    {
        self.is_set(WINDOW_DISPLAY_ENABLE | BG_DISPLAY_ENABLE)
    }

    pub fn bg_enabled(&self) -> (r: bool)
        ensures
            r == self.has(BG_DISPLAY_ENABLE),
    {
        self.is_set(BG_DISPLAY_ENABLE)
    }

    pub fn display_enabled(&self) -> (r: bool)
        ensures
            r == self.has(DISPLAY_ENABLE),
    {
        self.is_set(DISPLAY_ENABLE)
    }

    fn is_set(&self, bit: u8) -> (r: bool)
        ensures
            r == self.has(bit),
    {
        self.0 & bit == bit
    }
}

/// The window is enabled exactly when LCDC bits 5 and 0 are both set.
pub proof fn lemma_win_enabled_bits(l: Lcdc)
    ensures
        l.has(WINDOW_DISPLAY_ENABLE | BG_DISPLAY_ENABLE) <==> (l.0 & 0x20 != 0 && l.0 & 0x01 != 0),
{
    let v = l.0;
    assert((v & (0x20u8 | 0x01u8) == (0x20u8 | 0x01u8)) <==> (v & 0x20 != 0 && v & 0x01 != 0)) by (bit_vector);
}

} // verus!
