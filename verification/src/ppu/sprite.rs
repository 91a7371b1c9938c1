use vstd::prelude::*;
use core::cmp::Ordering;
use crate::bits::{BIT_0, BIT_1, BIT_2, BIT_3, BIT_4, BIT_5, BIT_6, BIT_7};
use crate::ppu::tile_data::TileAttributes;

verus! {

/// An object from OAM, decoded.
#[derive(Clone, Copy, Debug)]
pub struct Sprite {
    pub addr: u16,
    pub x: u8,
    pub y: u8,
    pub tile_attributes: TileAttributes,
    pub tile_index: u8,
    pub pallet_address: bool,
}

impl Sprite {
    /// Decodes the four OAM bytes (y, x, tile, attributes) of the sprite at `addr`.
    /// The priority and flip bits are stored inverted, so that they mean the same as
    /// in background tile attributes.
    pub fn new(addr: u16, bytes: [u8; 4]) -> (s: Self)
        ensures
            s.addr == addr,
            s.y == bytes@[0],
            s.x == bytes@[1],
            s.tile_index == bytes@[2],
            s.pallet_address == (bytes@[3] & BIT_4 == BIT_4),
            s.tile_attributes.byte == bytes@[3] ^ 0b11100000,
    {
        let y = bytes[0];
        let x = bytes[1];
        let tile_index = bytes[2];
        let attributes = bytes[3];
        let pallet_address = attributes & BIT_4 == BIT_4;
        let tile_attributes = TileAttributes::new(attributes ^ 0b11100000);
        Self { addr, x, y, tile_attributes, tile_index, pallet_address }
    }
}

/// Two sprites are the same when they sit at the same x position and OAM address.
impl PartialEq for Sprite {
    fn eq(&self, other: &Self) -> (r: bool) {
        self.x == other.x && self.addr == other.addr
    }
}

impl vstd::std_specs::cmp::PartialEqSpecImpl for Sprite {
    open spec fn obeys_eq_spec() -> bool {
        true
    }

    open spec fn eq_spec(&self, other: &Sprite) -> bool {
        self.x == other.x && self.addr == other.addr
    }
}

impl Eq for Sprite {}

/// Sprites order by decreasing x, then by decreasing OAM address.
pub open spec fn sprite_order(a: Sprite, b: Sprite) -> Ordering {
    if b.x < a.x {
        Ordering::Less
    } else if b.x > a.x {
        Ordering::Greater
    } else if b.addr < a.addr {
        Ordering::Less
    } else if b.addr > a.addr {
        Ordering::Greater
    } else {
        Ordering::Equal
    }
}

impl PartialOrd for Sprite {
    fn partial_cmp(&self, other: &Self) -> (r: Option<Ordering>) {
        if other.x < self.x {
            Some(Ordering::Less)
        } else if other.x > self.x {
            Some(Ordering::Greater)
        } else if other.addr < self.addr {
            Some(Ordering::Less)
        } else if other.addr > self.addr {
            Some(Ordering::Greater)
        } else {
            Some(Ordering::Equal)
        }
    }
}

impl vstd::std_specs::cmp::PartialOrdSpecImpl for Sprite {
    open spec fn obeys_partial_cmp_spec() -> bool {
        true
    }

    open spec fn partial_cmp_spec(&self, other: &Sprite) -> Option<Ordering> {
        Some(sprite_order(*self, *other))
    }
}

/// A sprite's stored flip bits are the OAM bits inverted; the palette and bank bits
/// are kept.
pub proof fn lemma_sprite_attribute_bits(attributes: u8)
    ensures
        ((attributes ^ 0b11100000) & BIT_6 == BIT_6) == (attributes & BIT_6 == 0),
        ((attributes ^ 0b11100000) & BIT_5 == BIT_5) == (attributes & BIT_5 == 0),
        ((attributes ^ 0b11100000) & BIT_7 == BIT_7) == (attributes & BIT_7 == 0),
        (attributes ^ 0b11100000) & 0b111 == attributes & 0b111,
        ((attributes ^ 0b11100000) >> 3u8) & 1 == (attributes >> 3u8) & 1,
{
    assert(((attributes ^ 0b11100000u8) & 0x40u8 == 0x40u8) == (attributes & 0x40u8 == 0)) by (bit_vector);
    assert(((attributes ^ 0b11100000u8) & 0x20u8 == 0x20u8) == (attributes & 0x20u8 == 0)) by (bit_vector);
    assert(((attributes ^ 0b11100000u8) & 0x80u8 == 0x80u8) == (attributes & 0x80u8 == 0)) by (bit_vector);
    assert((attributes ^ 0b11100000u8) & 0b111u8 == attributes & 0b111u8) by (bit_vector);
    assert(((attributes ^ 0b11100000u8) >> 3u8) & 1u8 == (attributes >> 3u8) & 1u8) by (bit_vector);
}

} // verus!
