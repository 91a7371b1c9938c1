use vstd::prelude::*;

verus! {

/// An opcode byte split into its decoding fields, in the order x, z, y, p, q:
/// x = bits 7-6, z = bits 2-0, y = bits 5-3, p = bits 5-4, q = bit 3.
#[derive(Clone, Copy, Debug, PartialEq, Eq, Structural)]
pub struct Opcode(pub usize, pub usize, pub usize, pub usize, pub usize);

pub open spec fn spec_parse_opcode(raw: u8) -> Opcode {
    Opcode(
        ((raw & 0b11000000) >> 6u8) as usize,
        (raw & 0b00000111) as usize,
        ((raw & 0b00111000) >> 3u8) as usize,
        ((raw & 0b00110000) >> 4u8) as usize,
        ((raw & 0b00001000) >> 3u8) as usize,
    )
}

/// Splits an opcode byte into its decoding fields.
pub fn parse_opcode(raw: u8) -> (o: Opcode)
    ensures
        o == spec_parse_opcode(raw),
{
    Opcode(
        ((raw & 0b11000000) >> 6u8) as usize,
        (raw & 0b00000111) as usize,
        ((raw & 0b00111000) >> 3u8) as usize,
        ((raw & 0b00110000) >> 4u8) as usize,
        ((raw & 0b00001000) >> 3u8) as usize,
    )
}

/// The fields are within their widths and together give back the byte:
/// raw = 64 x + 8 y + z, and y = 2 p + q.
pub proof fn lemma_opcode_fields(raw: u8)
    ensures
        ({
            let Opcode(x, z, y, p, q) = spec_parse_opcode(raw);
            &&& x < 4 && z < 8 && y < 8 && p < 4 && q < 2
            &&& raw == 64 * x + 8 * y + z
            &&& y == 2 * p + q
        }),
{
    let x = (raw & 0b11000000) >> 6u8;
    let z = raw & 0b00000111;
    let y = (raw & 0b00111000) >> 3u8;
    let p = (raw & 0b00110000) >> 4u8;
    let q = (raw & 0b00001000) >> 3u8;
    assert(x < 4 && z < 8 && y < 8 && p < 4 && q < 2) by (bit_vector)
        requires
            x == (raw & 0b11000000) >> 6u8,
            z == raw & 0b00000111,
            y == (raw & 0b00111000) >> 3u8,
            p == (raw & 0b00110000) >> 4u8,
            q == (raw & 0b00001000) >> 3u8,
    ;
    assert(raw == 64 * x + 8 * y + z && y == 2 * p + q) by (bit_vector)
        requires
            x == (raw & 0b11000000) >> 6u8,
            z == raw & 0b00000111,
            y == (raw & 0b00111000) >> 3u8,
            p == (raw & 0b00110000) >> 4u8,
            q == (raw & 0b00001000) >> 3u8,
    ;
}

} // verus!
