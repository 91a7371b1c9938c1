use vstd::prelude::*;
use crate::bits::{lemma_u8_facts, BIT_0, BIT_1, BIT_2, BIT_3, BIT_4, BIT_5, BIT_6, BIT_7};
use crate::ppu::VRAMBank;

verus! {

/// A tile's data address in VRAM and, on CGB, its attributes.
#[derive(Clone, Copy, Debug)]
pub struct TileData(pub u16, pub Option<TileAttributes>);

/// The attribute byte of a background tile or a sprite.
#[derive(Clone, Copy, Debug, PartialEq, Eq, Structural)]
pub struct TileAttributes {
    pub byte: u8,
}

impl TileAttributes {
    pub fn new(attributes: u8) -> (t: TileAttributes)
        ensures
            t.byte == attributes,
    {
        TileAttributes { byte: attributes }
    }

    /// Bit 7: the background and window are drawn over the sprite.
    pub fn bg_priority(self) -> (r: bool)
        ensures
            r == (self.byte & BIT_7 == BIT_7),
    {
        self.byte & BIT_7 == BIT_7
    }

    /// Bit 6.
    pub fn vertical_flip(self) -> (r: bool)
        ensures
            r == (self.byte & BIT_6 == BIT_6),
    {
        self.byte & BIT_6 == BIT_6
    }

    /// Bit 5.
    pub fn horizontal_flip(self) -> (r: bool)
        ensures
            r == (self.byte & BIT_5 == BIT_5),
    {
        self.byte & BIT_5 == BIT_5
    }

    /// Bit 3: the VRAM bank holding the tile's pixels.
    pub fn v_ram_bank(self) -> (b: VRAMBank)
        ensures
            b == VRAMBank::spec_from((self.byte >> 3u8) & 1),
    {
        VRAMBank::from((self.byte >> 3u8) & 1)
    }

    /// Bits 0-2: the CGB palette.
    pub fn palette_number(self) -> (r: u8)
        ensures
            r == self.byte & 0b111,
            r < 8,
    {
        let b = self.byte;
        proof {
            lemma_u8_facts();
        }
        b & 0b111
    }
}

} // verus!
